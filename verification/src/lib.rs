pub mod broker;
pub mod error;
pub mod helpers;
pub mod models;
