//! The decisions behind each request of the service.

pub mod auth;
pub mod groups;
pub mod notes;
pub mod users;
