use vstd::prelude::*;

use crate::kernel::model::id::UserId;
use crate::kernel::model::role::Role;

verus! {

/// The command that registers a user.
pub struct CreateUser {
    pub name: String,
    pub email: String,
    pub password: String,
}

/// The command that replaces a user's password. The store carries it out
/// only if `current_password` matches the password on record.
pub struct UpdateUserPassword {
    pub user_id: UserId,
    pub current_password: String,
    pub new_password: String,
}

/// The command that gives a user another role.
pub struct UpdateUserRole {
    pub user_id: UserId,
    pub role: Role,
}

} // verus!
