use vstd::prelude::*;

use crate::kernel::model::id::UserId;
use crate::kernel::model::role::Role;

pub mod event;

verus! {

/// A registered user, as the store reports one. The password hash stays in
/// the store.
pub struct User {
    pub id: UserId,
    pub name: String,
    pub email: String,
    pub role: Role,
}

/// The user who owns a book.
pub struct BookOwner {
    pub id: UserId,
    pub name: String,
}

/// The user who borrowed a book.
pub struct CheckoutUser {
    pub id: UserId,
    pub name: String,
}

} // verus!
