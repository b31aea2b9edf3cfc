use vstd::prelude::*;

verus! {

/// `redis::RedisError`: why the session store, or its client, refused.
#[verifier::external_type_specification]
#[verifier::external_body]
pub struct ExRedisError(redis::RedisError);

/// `garde::Report`: the rule violations found in one request, each with
/// the path of the field that broke the rule.
#[verifier::external_type_specification]
#[verifier::external_body]
pub struct ExReport(garde::Report);

/// Every way a request can fail.
#[derive(Debug)]
pub enum AppError {
    /// The record asked for is not in the store.
    EntityNotFound(String),
    /// The request broke a validation rule.
    ValidationError(garde::Report),
    /// The session store, or its client, refused.
    KeyValueStoreError(redis::RedisError),
    /// A stored value could not be read back as the type it was stored as.
    ConversionEntityError(String),
    /// The token presented belongs to no session, or the session to no user.
    UnauthenticatedError,
    /// The request carried no usable bearer token.
    UnauthorizedError,
}

pub type AppResult<T> = Result<T, AppError>;

pub const BAD_REQUEST: u16 = 400;

pub const UNAUTHORIZED: u16 = 401;

pub const NOT_FOUND: u16 = 404;

pub const INTERNAL_SERVER_ERROR: u16 = 500;

impl AppError {
    /// The HTTP status that reports this error.
    pub open spec fn status(self) -> u16 {
        match self {
            AppError::EntityNotFound(_) => NOT_FOUND,
            AppError::ValidationError(_) => BAD_REQUEST,
            AppError::UnauthenticatedError | AppError::UnauthorizedError => UNAUTHORIZED,
            AppError::KeyValueStoreError(_) | AppError::ConversionEntityError(_) =>
                INTERNAL_SERVER_ERROR,
        }
    }

    /// The HTTP status that reports this error: 404 for a missing record,
    /// 400 for a broken validation rule, 401 for a failed authentication
    /// of either kind, 500 for everything that went wrong inside.
    pub fn status_code(&self) -> (code: u16)
        ensures
            code == self.status(),
    {
        match self {
            AppError::EntityNotFound(_) => NOT_FOUND,
            AppError::ValidationError(_) => BAD_REQUEST,
            AppError::UnauthenticatedError | AppError::UnauthorizedError => UNAUTHORIZED,
            AppError::KeyValueStoreError(_) | AppError::ConversionEntityError(_) =>
                INTERNAL_SERVER_ERROR,
        }
    }
}

impl From<redis::RedisError> for AppError {
    fn from(error: redis::RedisError) -> (wrapped: Self) {
        AppError::KeyValueStoreError(error)
    }
}

impl vstd::std_specs::convert::FromSpecImpl<redis::RedisError> for AppError {
    open spec fn obeys_from_spec() -> bool {
        true
    }

    open spec fn from_spec(error: redis::RedisError) -> Self {
        AppError::KeyValueStoreError(error)
    }
}

impl From<garde::Report> for AppError {
    fn from(report: garde::Report) -> (wrapped: Self) {
        AppError::ValidationError(report)
    }
}

impl vstd::std_specs::convert::FromSpecImpl<garde::Report> for AppError {
    open spec fn obeys_from_spec() -> bool {
        true
    }

    open spec fn from_spec(report: garde::Report) -> Self {
        AppError::ValidationError(report)
    }
}

} // verus!
