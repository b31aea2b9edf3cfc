use vstd::prelude::*;
use vstd::std_specs::convert::TryFromSpec;

use crate::shared::error::{AppError, AppResult};

verus! {

/// A key of the session store. Its type fixes the type of the value kept
/// under it.
pub trait RedisKey {
    type Value: RedisValue + TryFrom<String, Error = AppError>;

    /// The key as the store holds it.
    fn inner(&self) -> String;
}

/// A value of the session store.
pub trait RedisValue {
    /// The value as the store holds it.
    fn inner(&self) -> String;
}

/// What reading a key comes to, given the text the store holds under it:
/// nothing where the store holds nothing, else the value that the text
/// reads as, or the error of a text that reads as none.
pub open spec fn value_read<T: RedisKey>(held: Option<String>) -> AppResult<Option<T::Value>> {
    match held {
        None => Ok(None),
        Some(text) => match <T::Value as TryFromSpec<String>>::try_from_spec(text) {
            Ok(value) => Ok(Some(value)),
            Err(error) => Err(error),
        },
    }
}

/// Reads the text that the store holds under a key of type `T` as a value
/// of the key's value type.
pub fn read_value<T: RedisKey>(held: Option<String>) -> (read: AppResult<Option<T::Value>>)
    ensures
        held is None ==> read == Ok::<Option<T::Value>, AppError>(None),
        held is Some ==> !(read matches Ok(None)),
        <T::Value as TryFromSpec<String>>::obeys_try_from_spec() ==> read == value_read::<T>(held),
{
    match held {
        None => Ok(None),
        Some(text) => match T::Value::try_from(text) {
            Ok(value) => Ok(Some(value)),
            Err(error) => Err(error),
        },
    }
}

} // verus!
