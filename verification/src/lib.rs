//! The computing core of a library book-management service: the domain
//! model, the request and response shapes of its HTTP interface, and the
//! decisions the service takes between its calls to the data stores.

pub mod adapter;
pub mod api;
pub mod kernel;
pub mod shared;
