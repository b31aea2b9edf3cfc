//! The bodies of requests and responses. Field for field they are what
//! travels as JSON, with the names in camel case.

pub mod auth;
pub mod checkout;
pub mod user;
