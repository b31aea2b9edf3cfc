//! The domain: what a user, a book and a checkout are.

pub mod model;
