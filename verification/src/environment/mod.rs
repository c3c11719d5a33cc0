//! What the process is configured with.

pub mod config;
