pub mod chassis;
pub mod mail;
pub mod util;
