//! The HTTP interface: who may call, what a request must look like and
//! what a response holds.

pub mod extractor;
pub mod handler;
pub mod model;
pub mod openapi;
pub mod validation;
