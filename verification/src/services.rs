pub mod conferences;
pub mod correspondences;
pub mod discussions;
pub mod enrollments;
pub mod programs;
pub mod sessions;
pub mod users;
