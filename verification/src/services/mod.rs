//! The rules run against the tables and the registry held in memory.

pub mod attendance;
pub mod auth;
pub mod confirmation;
pub mod confirmation_codes;
pub mod export;
pub mod moodle;
pub mod qrcode;
pub mod realtime;
pub mod statistics;
pub mod storage;
