use vstd::prelude::*;

use crate::kernel::model::id::{BookId, CheckoutId, UserId};

verus! {

/// The command that opens a checkout of a book for a user.
pub struct CreateCheckout {
    pub book_id: BookId,
    pub checked_out_by: UserId,
    pub checked_out_at: chrono::NaiveDateTime,
}

impl CreateCheckout {
    pub fn new(
        book_id: BookId,
        checked_out_by: UserId,
        checked_out_at: chrono::NaiveDateTime,
    ) -> (command: Self)
        ensures
            command == (CreateCheckout { book_id, checked_out_by, checked_out_at }),
    {
        CreateCheckout { book_id, checked_out_by, checked_out_at }
    }
}

/// The command that closes a checkout: the user brings the book back.
pub struct UpdateReturned {
    pub checkout_id: CheckoutId,
    pub book_id: BookId,
    pub returned_by: UserId,
    pub returned_at: chrono::NaiveDateTime,
}

impl UpdateReturned {
    pub fn new(
        checkout_id: CheckoutId,
        book_id: BookId,
        returned_by: UserId,
        returned_at: chrono::NaiveDateTime,
    ) -> (command: Self)
        ensures
            command == (UpdateReturned { checkout_id, book_id, returned_by, returned_at }),
    {
        UpdateReturned { checkout_id, book_id, returned_by, returned_at }
    }
}

} // verus!
