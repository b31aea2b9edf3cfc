use vstd::prelude::*;

use crate::api::extractor::AuthorizedUser;
use crate::api::model::checkout::CheckoutsResponse;
use crate::kernel::model::checkout::event::{CreateCheckout, UpdateReturned};
use crate::kernel::model::checkout::Checkout;
use crate::kernel::model::id::{BookId, CheckoutId};
use crate::shared::error::{AppError, AppResult};

verus! {

/// The HTTP status of a request that made or changed a record.
pub const CREATED: u16 = 201;

/// The command of a caller who borrows a book at the instant `now`: a
/// checkout of that book for that caller, opened at that instant.
pub fn checkout_book(
    user: &AuthorizedUser,
    book_id: BookId,
    now: chrono::NaiveDateTime,
) -> (command: CreateCheckout)
    ensures
        command == (CreateCheckout {
            book_id,
            checked_out_by: user.user.id,
            checked_out_at: now,
        }),
{
    CreateCheckout::new(book_id, user.id(), now)
}

/// The command of a caller who brings a book back at the instant `now`:
/// the checkout of that book is closed by that caller at that instant.
pub fn return_book(
    user: &AuthorizedUser,
    book_id: BookId,
    checkout_id: CheckoutId,
    now: chrono::NaiveDateTime,
) -> (command: UpdateReturned)
    ensures
        command == (UpdateReturned {
            checkout_id,
            book_id,
            returned_by: user.user.id,
            returned_at: now,
        }),
{
    UpdateReturned::new(checkout_id, book_id, user.id(), now)
}

/// The answer to a checkout or a return, given what the store made of
/// the command: the status [`CREATED`], or the store's error.
pub fn created(stored: AppResult<()>) -> (answer: AppResult<u16>)
    ensures
        answer == match stored {
            Ok(_) => Ok::<u16, AppError>(CREATED),
            Err(error) => Err::<u16, AppError>(error),
        },
{
    match stored {
        Ok(_) => Ok(CREATED),
        Err(error) => Err(error),
    }
}

/// The answer to a request for a list of checkouts, the open ones or the
/// history of a book, given what the store found: each checkout found,
/// in the store's order, or the store's error.
pub fn checkouts_found(found: AppResult<Vec<Checkout>>) -> (answer: AppResult<CheckoutsResponse>)
    ensures
        match found {
            Ok(checkouts) => answer matches Ok(response) && response.items@
                == CheckoutsResponse::listing(checkouts@),
            Err(error) => answer matches Err(e) && e == error,
        },
{
    match found {
        Ok(checkouts) => Ok(CheckoutsResponse::from(checkouts)),
        Err(error) => Err(error),
    }
}

} // verus!
