use vstd::prelude::*;

verus! {

/// Identifies a user: the 128 bits of the user's UUID.
#[derive(Clone, Copy, Debug, PartialEq, Eq, Hash, Structural)]
pub struct UserId(pub u128);

/// Identifies a book: the 128 bits of the book's UUID.
#[derive(Clone, Copy, Debug, PartialEq, Eq, Hash, Structural)]
pub struct BookId(pub u128);

/// Identifies a checkout: the 128 bits of the checkout's UUID.
#[derive(Clone, Copy, Debug, PartialEq, Eq, Hash, Structural)]
pub struct CheckoutId(pub u128);

} // verus!
