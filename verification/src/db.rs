//! The user store as the core sees it: identity records, queries and failures.
pub mod errors;
pub mod user;

use vstd::prelude::*;
use crate::db::errors::{DatabaseError, QueryFailure};

verus! {

/// How one storage call on a pooled connection ended.
#[derive(Debug, Clone)]
pub enum Execution<T> {
    /// The pool gave no connection.
    Unavailable,
    /// The context that ran the blocking call failed; the text says how.
    Aborted(String),
    /// The call ran and the store returned an error.
    Failed(QueryFailure, String),
    /// The call ran and returned a value.
    Completed(T),
}

/// The result of a storage call: its value, or the failure classified.
pub fn execute<T>(execution: Execution<T>) -> (outcome: Result<T, DatabaseError>)
    ensures
        outcome == match execution {
            Execution::Unavailable => Err::<T, DatabaseError>(DatabaseError::Connection),
            Execution::Aborted(detail) => Err::<T, DatabaseError>(
                DatabaseError::Interaction(detail),
            ),
            Execution::Failed(kind, detail) => Err::<T, DatabaseError>(
                DatabaseError::Query(kind, detail),
            ),
            Execution::Completed(value) => Ok::<T, DatabaseError>(value),
        },
{
    match execution {
        Execution::Unavailable => Err(DatabaseError::Connection),
        Execution::Aborted(detail) => Err(DatabaseError::Interaction(detail)),
        Execution::Failed(kind, detail) => Err(DatabaseError::Query(kind, detail)),
        Execution::Completed(value) => Ok(value),
    }
}

} // verus!
