use vstd::prelude::*;

verus! {

/// Where the session store listens.
pub struct RedisConfig {
    pub host: String,
    pub port: u16,
}

} // verus!
