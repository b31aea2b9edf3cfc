pub mod auth;
pub mod checkout;
pub mod id;
pub mod role;
pub mod user;
