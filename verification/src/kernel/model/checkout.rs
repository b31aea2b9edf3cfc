use vstd::prelude::*;

use crate::kernel::model::id::{BookId, CheckoutId};
use crate::kernel::model::user::CheckoutUser;

pub mod event;

verus! {

/// `chrono::NaiveDateTime`: a calendar date and a time of day. Every value
/// of it in this library is a reading in UTC. The library carries instants
/// from the clock and the store to its commands and responses and never
/// looks inside one.
#[verifier::external_type_specification]
#[verifier::external_body]
pub struct ExNaiveDateTime(chrono::NaiveDateTime);

/// One borrowing of a book. It is open while `returned_at` is `None`; the
/// store keeps at most one open checkout per book.
pub struct Checkout {
    pub id: CheckoutId,
    pub checked_out_by: CheckoutUser,
    pub checked_out_at: chrono::NaiveDateTime,
    pub returned_at: Option<chrono::NaiveDateTime>,
    pub book: CheckoutBook,
}

/// The book of a checkout, as the store reports it with the checkout.
pub struct CheckoutBook {
    pub book_id: BookId,
    pub title: String,
    pub author: String,
    pub isbn: String,
}

} // verus!
