use vstd::prelude::*;

use crate::api::model::user::CheckoutUser;
use crate::kernel::model::checkout::{Checkout, CheckoutBook};
use crate::kernel::model::id::{BookId, CheckoutId};

verus! {

/// The book of a checkout as a response shows it.
pub struct CheckoutBookResponse {
    pub id: BookId,
    pub title: String,
    pub author: String,
    pub isbn: String,
}

impl CheckoutBookResponse {
    /// What a response shows of the book of a checkout: every field, the
    /// book's id as `id`.
    pub open spec fn of(value: CheckoutBook) -> CheckoutBookResponse {
        CheckoutBookResponse {
            id: value.book_id,
            title: value.title,
            author: value.author,
            isbn: value.isbn,
        }
    }
}

impl From<CheckoutBook> for CheckoutBookResponse {
    fn from(value: CheckoutBook) -> (response: Self)
        ensures
            response == CheckoutBookResponse::of(value),
    {
        let CheckoutBook { book_id, title, author, isbn } = value;
        CheckoutBookResponse { id: book_id, title, author, isbn }
    }
}

impl vstd::std_specs::convert::FromSpecImpl<CheckoutBook> for CheckoutBookResponse {
    open spec fn obeys_from_spec() -> bool {
        true
    }

    open spec fn from_spec(value: CheckoutBook) -> Self {
        CheckoutBookResponse::of(value)
    }
}

/// A checkout as a response shows it. `returned_at` is `None` while the
/// book is out.
pub struct CheckoutResponse {
    pub id: CheckoutId,
    pub checked_out_by: CheckoutUser,
    pub checked_out_at: chrono::NaiveDateTime,
    pub returned_at: Option<chrono::NaiveDateTime>,
    pub book: CheckoutBookResponse,
}

impl CheckoutResponse {
    /// What a response shows of a checkout: every field, borrower and book
    /// as responses show them.
    pub open spec fn of(value: Checkout) -> CheckoutResponse {
        CheckoutResponse {
            id: value.id,
            checked_out_by: CheckoutUser::of(value.checked_out_by),
            checked_out_at: value.checked_out_at,
            returned_at: value.returned_at,
            book: CheckoutBookResponse::of(value.book),
        }
    }
}

impl From<Checkout> for CheckoutResponse {
    fn from(value: Checkout) -> (response: Self)
        ensures
            response == CheckoutResponse::of(value),
    {
        let Checkout { id, checked_out_by, checked_out_at, returned_at, book } = value;
        CheckoutResponse {
            id,
            checked_out_by: CheckoutUser::from(checked_out_by),
            checked_out_at,
            returned_at,
            book: CheckoutBookResponse::from(book),
        }
    }
}

impl vstd::std_specs::convert::FromSpecImpl<Checkout> for CheckoutResponse {
    open spec fn obeys_from_spec() -> bool {
        true
    }

    open spec fn from_spec(value: Checkout) -> Self {
        CheckoutResponse::of(value)
    }
}

/// The body of a response that lists checkouts.
pub struct CheckoutsResponse {
    pub items: Vec<CheckoutResponse>,
}

impl CheckoutsResponse {
    /// What a response shows of a list of checkouts: each of them, in the
    /// order of the list.
    pub open spec fn listing(checkouts: Seq<Checkout>) -> Seq<CheckoutResponse> {
        checkouts.map_values(|checkout: Checkout| CheckoutResponse::of(checkout))
    }
}

impl From<Vec<Checkout>> for CheckoutsResponse {
    fn from(value: Vec<Checkout>) -> (response: Self)
        ensures
            response.items@ == CheckoutsResponse::listing(value@),
    {
        let mut items: Vec<CheckoutResponse> = Vec::new();
        for checkout in rest: value
            invariant
                rest.seq() == value@,
                items@ == CheckoutsResponse::listing(value@.take(rest.index() as int)),
        {
            assert(value@.take(rest.index() + 1) == value@.take(rest.index() as int).push(
                checkout,
            ));
            items.push(CheckoutResponse::from(checkout));
        }
        assert(value@.take(value@.len() as int) == value@);
        CheckoutsResponse { items }
    }
}

/// A list has no value in specifications but its view, so the conversion
/// is stated over views, in the contract of `from`, and not here.
impl vstd::std_specs::convert::FromSpecImpl<Vec<Checkout>> for CheckoutsResponse {
    open spec fn obeys_from_spec() -> bool {
        false
    }

    open spec fn from_spec(value: Vec<Checkout>) -> Self {
        arbitrary()
    }
}

} // verus!
