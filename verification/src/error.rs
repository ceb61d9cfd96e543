//! A result that travels between services.
use vstd::prelude::*;

verus! {

/// Success with a value or failure with an error.
#[derive(Clone, Debug)]
pub enum SerializableResult<T, E> {
    Success(T),
    Error(E),
}

impl<T, E> SerializableResult<T, E> {
    /// The same outcome as a `Result`.
    pub fn into_result(self) -> (r: Result<T, E>)
        ensures
            match self {
                SerializableResult::Success(t) => r == Ok::<T, E>(t),
                SerializableResult::Error(e) => r == Err::<T, E>(e),
            },
    {
        match self {
            SerializableResult::Success(t) => Ok(t),
            SerializableResult::Error(err) => Err(err),
        }
    }

    /// The same outcome as a `Result`, with the error converted.
    pub fn from_result(res: Result<T, E>) -> (r: Self)
        ensures
            match res {
                Ok(t) => r == SerializableResult::<T, E>::Success(t),
                Err(e) => r == SerializableResult::<T, E>::Error(e),
            },
    {
        match res {
            Ok(ok) => Self::Success(ok),
            Err(err) => Self::Error(err),
        }
    }
}

} // verus!
