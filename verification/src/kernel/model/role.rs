use vstd::prelude::*;

verus! {

/// What a user may do: an administrator manages users, a plain user does not.
#[derive(Clone, Copy, Debug, PartialEq, Eq, Structural)]
pub enum Role {
    Admin,
    User,
}

} // verus!
