//! Failures of the user store.
use vstd::prelude::*;
use vstd::string::*;

verus! {

/// What went wrong inside a storage query.
#[derive(Debug, Clone, Copy, PartialEq, Eq, Structural)]
pub enum QueryFailure {
    /// A uniqueness constraint rejected the row.
    UniqueViolation,
    /// Any other failure: a lost connection, a malformed statement, ...
    Other,
}

/// A failure of the user store. The detail strings are kept for the server's
/// own diagnostics and never shown to a client.
#[derive(Debug, Clone)]
pub enum DatabaseError {
    /// No connection could be leased from the pool.
    Connection,
    /// The execution context that ran the blocking call failed.
    Interaction(String),
    /// The storage operation could not be carried out.
    Operation(String),
    /// The storage operation ran and returned an error.
    Query(QueryFailure, String),
    /// The schema migrations failed.
    Migration,
    /// Anything else.
    Internal,
}

impl DatabaseError {
    /// The client-facing text of each failure.
    pub open spec fn message_text(self) -> Seq<char> {
        match self {
            DatabaseError::Connection => "Failed pool connection"@,
            DatabaseError::Interaction(_) => "Failed storage interaction"@,
            DatabaseError::Operation(_) => "Failed storage operation"@,
            DatabaseError::Query(_, _) => "Failed storage query"@,
            DatabaseError::Migration => "Failed to run migrations"@,
            DatabaseError::Internal => "Internal error ..."@,
        }
    }

    /// The detail retained for diagnostics; empty where there is none.
    pub open spec fn detail_text(self) -> Seq<char> {
        match self {
            DatabaseError::Interaction(detail) => detail@,
            DatabaseError::Operation(detail) => detail@,
            DatabaseError::Query(_, detail) => detail@,
            _ => Seq::<char>::empty(),
        }
    }

    /// Whether the store refused a row because its login or email is taken.
    pub open spec fn is_unique_violation(self) -> bool {
        self matches DatabaseError::Query(QueryFailure::UniqueViolation, _)
    }

    /// Text that may be shown to a client: it never holds the detail.
    pub fn message(&self) -> (text: String)
        ensures
            text@ == self.message_text(),
    {
        match self {
            DatabaseError::Connection => String::from_str("Failed pool connection"),
            DatabaseError::Interaction(_) => String::from_str("Failed storage interaction"),
            DatabaseError::Operation(_) => String::from_str("Failed storage operation"),
            DatabaseError::Query(_, _) => String::from_str("Failed storage query"),
            DatabaseError::Migration => String::from_str("Failed to run migrations"),
            DatabaseError::Internal => String::from_str("Internal error ..."),
        }
    }

    /// The detail retained for the server's diagnostics.
    pub fn detail(&self) -> (text: String)
        ensures
            text@ == self.detail_text(),
    {
        match self {
            DatabaseError::Interaction(detail) => detail.clone(),
            DatabaseError::Operation(detail) => detail.clone(),
            DatabaseError::Query(_, detail) => detail.clone(),
            _ => String::new(),
        }
    }

    /// Whether the store refused a row because its login or email is taken.
    pub fn unique_violation(&self) -> (yes: bool)
        ensures
            yes == self.is_unique_violation(),
    {
        match self {
            DatabaseError::Query(QueryFailure::UniqueViolation, _) => true,
            _ => false,
        }
    }
}

} // verus!
