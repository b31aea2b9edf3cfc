//! What every layer uses: the configuration and the error type.

pub mod config;
pub mod error;
