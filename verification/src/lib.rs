//! Attendance confirmation and live presence broadcast.
//!
//! An instructor shows a short rotating code; students submit it together with
//! their identity; every dashboard that follows the course sees the head count
//! change. This crate holds the rules of that exchange: how codes are made and
//! judged, how duplicate submissions are refused, how a submission moves through
//! its steps, and who receives a broadcast.
//!
//! The rules are stated twice over: as decisions that a server takes step by
//! step while it talks to its database and its sockets ([`submission`], [`ws`],
//! [`codes`]), and as services over tables and rooms held in memory
//! ([`services`], [`db`], [`ws_server`]), which carry the same decisions through
//! from beginning to end. What holds of them together is collected in [`laws`].
//!
//! Instants are milliseconds since the Unix epoch in UTC; a day is a UTC
//! calendar day. Courses are known by the 128-bit value of their UUID.

pub mod auth;
pub mod clock;
pub mod codes;
pub mod config;
pub mod db;
pub mod errors;
pub mod ids;
pub mod laws;
pub mod middleware;
pub mod models;
pub mod services;
pub mod submission;
pub mod text;
pub mod utils;
pub mod ws;
pub mod ws_server;
