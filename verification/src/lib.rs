pub mod commons;
pub mod models;
pub mod services;
pub mod store;
