use vstd::prelude::*;

use crate::kernel::model::auth::AccessToken;
use crate::kernel::model::id::UserId;
use crate::kernel::model::role::Role;
use crate::kernel::model::user::User;
use crate::shared::error::{AppError, AppResult};

verus! {

/// The caller of a request, once the token it presented has been traced
/// to a user.
pub struct AuthorizedUser {
    pub access_token: AccessToken,
    pub user: User,
}

impl AuthorizedUser {
    pub fn id(&self) -> (id: UserId)
        ensures
            id == self.user.id,
    {
        self.user.id
    }

    pub fn is_admin(&self) -> (admin: bool)
        ensures
            admin == (self.user.role == Role::Admin),
    {
        self.user.role == Role::Admin
    }
}

/// What a store answered to the question an [`Authorization`] had open.
pub enum StoreReply {
    /// The session store's answer: the user the token belongs to, if any.
    UserId(AppResult<Option<UserId>>),
    /// The user store's answer: the record of the user, if any.
    User(AppResult<Option<User>>),
}

/// How far the authorization of one request has come. The two `Needs`
/// states name the question to put to a store next; the other two are
/// final.
///
/// A request is authorized in three steps: its `Authorization` header must
/// carry a bearer token, the session store must know the token, and the
/// user store must know the user the session belongs to.
pub enum Authorization {
    /// Ask the session store which user `access_token` belongs to.
    NeedsUserId { access_token: AccessToken },
    /// Ask the user store for the record of `user_id`.
    NeedsUser { access_token: AccessToken, user_id: UserId },
    /// The caller is this user.
    Granted(AuthorizedUser),
    /// The request is turned away with this error.
    Refused(AppError),
}

impl Authorization {
    /// Where an authorization starts, given the bearer token of the
    /// request's `Authorization` header, or `None` if the header is missing
    /// or is no bearer credential.
    pub open spec fn started(bearer: Option<String>) -> Authorization {
        match bearer {
            Some(token) => Authorization::NeedsUserId { access_token: AccessToken(token) },
            None => Authorization::Refused(AppError::UnauthorizedError),
        }
    }

    /// Whether `reply` answers the question that `self` has open.
    pub open spec fn awaits(self, reply: StoreReply) -> bool {
        ||| self is NeedsUserId && reply is UserId
        ||| self is NeedsUser && reply is User
    }

    /// Where the authorization stands after `reply`. A store's failure
    /// ends it with that failure, an empty answer ends it as
    /// unauthenticated, and a reply to a question that is not open leaves
    /// it where it was.
    pub open spec fn advanced(self, reply: StoreReply) -> Authorization {
        match (self, reply) {
            (Authorization::NeedsUserId { access_token }, StoreReply::UserId(found)) => match found {
                Ok(Some(user_id)) => Authorization::NeedsUser { access_token, user_id },
                Ok(None) => Authorization::Refused(AppError::UnauthenticatedError),
                Err(error) => Authorization::Refused(error),
            },
            (Authorization::NeedsUser { access_token, user_id }, StoreReply::User(found)) => match found {
                Ok(Some(user)) => Authorization::Granted(AuthorizedUser { access_token, user }),
                Ok(None) => Authorization::Refused(AppError::UnauthenticatedError),
                Err(error) => Authorization::Refused(error),
            },
            (state, _) => state,
        }
    }

    /// The result of a finished authorization; `None` while a question is
    /// open.
    pub open spec fn outcome(self) -> Option<AppResult<AuthorizedUser>> {
        match self {
            Authorization::Granted(user) => Some(Ok(user)),
            Authorization::Refused(error) => Some(Err(error)),
            _ => None,
        }
    }

    /// What authorizing a request comes to, given the bearer token of its
    /// header and what the two stores answer when asked: the caller, if
    /// there is a token, the session store knows its user and the user
    /// store knows that user; else the first thing that went wrong.
    pub open spec fn verdict(
        bearer: Option<String>,
        session: AppResult<Option<UserId>>,
        record: AppResult<Option<User>>,
    ) -> AppResult<AuthorizedUser> {
        match bearer {
            None => Err(AppError::UnauthorizedError),
            Some(token) => match session {
                Err(error) => Err(error),
                Ok(None) => Err(AppError::UnauthenticatedError),
                Ok(Some(_)) => match record {
                    Err(error) => Err(error),
                    Ok(None) => Err(AppError::UnauthenticatedError),
                    Ok(Some(user)) => Ok(AuthorizedUser { access_token: AccessToken(token), user }),
                },
            },
        }
    }

    /// Starts the authorization of a request from the bearer token of its
    /// `Authorization` header; `None` stands for a header that is missing
    /// or is no bearer credential.
    pub fn start(bearer: Option<String>) -> (state: Authorization)
        ensures
            state == Authorization::started(bearer),
    {
        match bearer {
            Some(token) => Authorization::NeedsUserId { access_token: AccessToken(token) },
            None => Authorization::Refused(AppError::UnauthorizedError),
        }
    }

    /// Takes a store's reply and moves on.
    pub fn advance(self, reply: StoreReply) -> (state: Authorization)
        ensures
            state == self.advanced(reply),
    {
        match self {
            Authorization::NeedsUserId { access_token } => match reply {
                StoreReply::UserId(Ok(Some(user_id))) => Authorization::NeedsUser {
                    access_token,
                    user_id,
                },
                StoreReply::UserId(Ok(None)) => Authorization::Refused(
                    AppError::UnauthenticatedError,
                ),
                StoreReply::UserId(Err(error)) => Authorization::Refused(error),
                StoreReply::User(_) => Authorization::NeedsUserId { access_token },
            },
            Authorization::NeedsUser { access_token, user_id } => match reply {
                StoreReply::User(Ok(Some(user))) => Authorization::Granted(
                    AuthorizedUser { access_token, user },
                ),
                StoreReply::User(Ok(None)) => Authorization::Refused(
                    AppError::UnauthenticatedError,
                ),
                StoreReply::User(Err(error)) => Authorization::Refused(error),
                StoreReply::UserId(_) => Authorization::NeedsUser { access_token, user_id },
            },
            Authorization::Granted(user) => Authorization::Granted(user),
            Authorization::Refused(error) => Authorization::Refused(error),
        }
    }

    /// Hands out the result of a finished authorization. While a question
    /// is open there is none, and the state comes back as it was.
    pub fn finish(self) -> (result: Result<AppResult<AuthorizedUser>, Authorization>)
        ensures
            match self.outcome() {
                Some(outcome) => result == Ok::<AppResult<AuthorizedUser>, Authorization>(outcome),
                None => result == Err::<AppResult<AuthorizedUser>, Authorization>(self),
            },
    {
        match self {
            Authorization::Granted(user) => Ok(Ok(user)),
            Authorization::Refused(error) => Ok(Err(error)),
            open => Err(open),
        }
    }

    /// An authorization that asks both stores in turn ends in the verdict
    /// on the token and the two answers. It stops asking at the first
    /// answer that settles the matter: the replies that come after change
    /// nothing.
    pub proof fn lemma_three_steps_reach_the_verdict(
        bearer: Option<String>,
        session: AppResult<Option<UserId>>,
        record: AppResult<Option<User>>,
    )
        ensures
            Authorization::started(bearer).advanced(StoreReply::UserId(session)).advanced(
                StoreReply::User(record),
            ).outcome() == Some(Authorization::verdict(bearer, session, record)),
    {
    }

    /// A finished authorization stays as it is, whatever reply comes.
    pub proof fn lemma_final_states_absorb(state: Authorization, reply: StoreReply)
        requires
            state.outcome() is Some,
        ensures
            state.advanced(reply) == state,
    {
    }

    /// An open question is settled or replaced by the reply it waits for:
    /// no state asks the same question twice.
    pub proof fn lemma_awaited_reply_moves_on(state: Authorization, reply: StoreReply)
        requires
            state.awaits(reply),
        ensures
            state.advanced(reply) != state,
            state is NeedsUserId ==> !(state.advanced(reply) is NeedsUserId),
            state is NeedsUser ==> state.advanced(reply).outcome() is Some,
    {
    }
}

} // verus!
