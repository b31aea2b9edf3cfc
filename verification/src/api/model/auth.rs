use vstd::prelude::*;

use crate::kernel::model::id::UserId;

verus! {

/// The body of a login request.
pub struct LoginRequest {
    pub email: String,
    pub password: String,
}

/// The body of the response to a login that succeeded. The client sends
/// `access_token` back as the bearer credential of its later requests.
pub struct AccessTokenResponse {
    pub user_id: UserId,
    pub access_token: String,
}

} // verus!
