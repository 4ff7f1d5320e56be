//! Shared game types and persistent data.
pub mod config;
pub mod save_data;
pub mod types;
