pub mod abstract_tasks;
pub mod base_program_coaches;
pub mod base_programs;
pub mod coaches;
pub mod conferences;
pub mod correspondences;
pub mod discussion_queue;
pub mod discussions;
pub mod enrollments;
pub mod ferror;
pub mod master_plans;
pub mod notes;
pub mod programs;
pub mod teams;
pub mod master_tasks;
pub mod objectives;
pub mod session_users;
pub mod sessions;
pub mod tasks;
pub mod users;
pub mod observations;
pub mod options;
