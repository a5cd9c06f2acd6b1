//! Errors, configuration, text and time.

pub mod clock;
pub mod config;
pub mod error;
pub mod text;
