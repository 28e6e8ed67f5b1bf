//! The shapes of requests and responses.

pub mod attendance;
pub mod course;
pub mod preferences;
pub mod user;
