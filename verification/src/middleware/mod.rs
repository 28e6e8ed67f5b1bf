//! Guards in front of the handlers: who may come in, and how often.

pub mod host_only;
pub mod rate_limit;
