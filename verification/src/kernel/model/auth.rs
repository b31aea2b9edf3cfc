use vstd::prelude::*;

verus! {

/// The token a client presents to prove a login. It is the key under which
/// the session store keeps the id of the user who logged in.
pub struct AccessToken(pub String);

} // verus!
