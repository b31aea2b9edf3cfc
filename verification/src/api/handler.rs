//! What each endpoint hands to a store and what it answers with the
//! store's reply.

pub mod checkout;
