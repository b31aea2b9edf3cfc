//! The clients of the data stores.

pub mod redis;
