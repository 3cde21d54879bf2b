//! Errors of the account operations and how each is shown to a client.
use vstd::prelude::*;
use vstd::string::*;
use crate::api::token::TokenError;
use crate::db::errors::DatabaseError;

verus! {

/// HTTP status codes used by the service.
pub const STATUS_BAD_REQUEST: u16 = 400;

pub const STATUS_UNAUTHORIZED: u16 = 401;

pub const STATUS_NOT_FOUND: u16 = 404;

pub const STATUS_CONFLICT: u16 = 409;

pub const STATUS_UNPROCESSABLE_ENTITY: u16 = 422;

pub const STATUS_INTERNAL_SERVER_ERROR: u16 = 500;

/// Why a session could not be established.
#[derive(Debug, Clone, Copy, PartialEq, Eq, Structural)]
pub enum AuthError {
    MissingCredentials,
    InvalidCredentials,
    MissingToken,
    InvalidToken,
    MissingUser,
}

impl AuthError {
    pub open spec fn message_text(self) -> Seq<char> {
        match self {
            AuthError::MissingCredentials => "Missing credentials"@,
            AuthError::InvalidCredentials => "Invalid credentials"@,
            AuthError::MissingToken => "Missing token"@,
            AuthError::InvalidToken => "Invalid token"@,
            AuthError::MissingUser => "Missing user"@,
        }
    }

    /// Something absent is a bad request; something present and wrong is
    /// unauthorized.
    pub open spec fn status_code(self) -> u16 {
        match self {
            AuthError::MissingCredentials | AuthError::MissingToken => STATUS_BAD_REQUEST,
            AuthError::InvalidCredentials | AuthError::InvalidToken | AuthError::MissingUser =>
                STATUS_UNAUTHORIZED,
        }
    }

    pub fn message(&self) -> (text: String)
        ensures
            text@ == self.message_text(),
    {
        match self {
            AuthError::MissingCredentials => String::from_str("Missing credentials"),
            AuthError::InvalidCredentials => String::from_str("Invalid credentials"),
            AuthError::MissingToken => String::from_str("Missing token"),
            AuthError::InvalidToken => String::from_str("Invalid token"),
            AuthError::MissingUser => String::from_str("Missing user"),
        }
    }

    /// The status of the response that reports this error on its own.
    pub fn status(&self) -> (code: u16)
        ensures
            code == self.status_code(),
    {
        match self {
            AuthError::MissingCredentials | AuthError::MissingToken => STATUS_BAD_REQUEST,
            AuthError::InvalidCredentials | AuthError::InvalidToken | AuthError::MissingUser =>
                STATUS_UNAUTHORIZED,
        }
    }
}

/// Why an account operation was refused.
#[derive(Debug, Clone, Copy, PartialEq, Eq, Structural)]
pub enum UserError {
    Exists,
    HashPassword,
    ParseUuid,
    MissedCredentials,
    InvalidCredentials,
    NotFound,
    Unauthorized,
}

impl UserError {
    pub open spec fn message_text(self) -> Seq<char> {
        match self {
            UserError::Exists => "User already exists"@,
            UserError::HashPassword => "Failed to create a password hash"@,
            UserError::ParseUuid => "Failed to parse user UUID"@,
            UserError::MissedCredentials => "Missed user credentials"@,
            UserError::InvalidCredentials => "Invalid user credentials"@,
            UserError::NotFound => "User not found"@,
            UserError::Unauthorized => "User is not authorized"@,
        }
    }

    pub open spec fn status_code(self) -> u16 {
        match self {
            UserError::Exists => STATUS_CONFLICT,
            UserError::HashPassword | UserError::ParseUuid => STATUS_INTERNAL_SERVER_ERROR,
            UserError::MissedCredentials | UserError::InvalidCredentials | UserError::Unauthorized =>
                STATUS_UNAUTHORIZED,
            UserError::NotFound => STATUS_NOT_FOUND,
        }
    }

    pub fn message(&self) -> (text: String)
        ensures
            text@ == self.message_text(),
    {
        match self {
            UserError::Exists => String::from_str("User already exists"),
            UserError::HashPassword => String::from_str("Failed to create a password hash"),
            UserError::ParseUuid => String::from_str("Failed to parse user UUID"),
            UserError::MissedCredentials => String::from_str("Missed user credentials"),
            UserError::InvalidCredentials => String::from_str("Invalid user credentials"),
            UserError::NotFound => String::from_str("User not found"),
            UserError::Unauthorized => String::from_str("User is not authorized"),
        }
    }

    pub fn status(&self) -> (code: u16)
        ensures
            code == self.status_code(),
    {
        match self {
            UserError::Exists => STATUS_CONFLICT,
            UserError::HashPassword | UserError::ParseUuid => STATUS_INTERNAL_SERVER_ERROR,
            UserError::MissedCredentials | UserError::InvalidCredentials | UserError::Unauthorized =>
                STATUS_UNAUTHORIZED,
            UserError::NotFound => STATUS_NOT_FOUND,
        }
    }
}

/// Every way in which a request to the account service can fail.
#[derive(Debug, Clone)]
pub enum ApiError {
    Database(DatabaseError),
    AuthError(AuthError),
    ReadContent,
    Query(UserError),
    /// A session token could not be issued.
    Token(TokenError),
}

impl ApiError {
    pub open spec fn message_text(self) -> Seq<char> {
        match self {
            ApiError::Database(e) => e.message_text(),
            ApiError::AuthError(e) => "Authentication error occured: "@ + e.message_text(),
            ApiError::ReadContent => "Failed to read body content"@,
            ApiError::Query(e) => e.message_text(),
            ApiError::Token(_) => "Failed to issue a session token"@,
        }
    }

    /// Storage failures and a token that cannot be issued are a server
    /// fault, session failures are unauthorized, an unreadable body is
    /// unprocessable, and a refused account operation has the status of its
    /// own kind.
    pub open spec fn status_code(self) -> u16 {
        match self {
            ApiError::Database(_) => STATUS_INTERNAL_SERVER_ERROR,
            ApiError::AuthError(_) => STATUS_UNAUTHORIZED,
            ApiError::ReadContent => STATUS_UNPROCESSABLE_ENTITY,
            ApiError::Query(e) => e.status_code(),
            ApiError::Token(_) => STATUS_INTERNAL_SERVER_ERROR,
        }
    }

    /// The body of the response; for a storage failure it holds no detail.
    pub fn message(&self) -> (text: String)
        ensures
            text@ == self.message_text(),
    {
        match self {
            ApiError::Database(e) => e.message(),
            ApiError::AuthError(e) => {
                let mut text = String::from_str("Authentication error occured: ");
                let inner = e.message();
                text.append(inner.as_str());
                text
            },
            ApiError::ReadContent => String::from_str("Failed to read body content"),
            ApiError::Query(e) => e.message(),
            ApiError::Token(_) => String::from_str("Failed to issue a session token"),
        }
    }

    pub fn status(&self) -> (code: u16)
        ensures
            code == self.status_code(),
    {
        match self {
            ApiError::Database(_) => STATUS_INTERNAL_SERVER_ERROR,
            ApiError::AuthError(_) => STATUS_UNAUTHORIZED,
            ApiError::ReadContent => STATUS_UNPROCESSABLE_ENTITY,
            ApiError::Query(e) => e.status(),
            ApiError::Token(_) => STATUS_INTERNAL_SERVER_ERROR,
        }
    }
}

impl From<DatabaseError> for ApiError {
    fn from(e: DatabaseError) -> (err: ApiError) {
        ApiError::Database(e)
    }
}

impl vstd::std_specs::convert::FromSpecImpl<DatabaseError> for ApiError {
    open spec fn obeys_from_spec() -> bool {
        true
    }

    open spec fn from_spec(e: DatabaseError) -> ApiError {
        ApiError::Database(e)
    }
}

impl From<AuthError> for ApiError {
    fn from(e: AuthError) -> (err: ApiError) {
        ApiError::AuthError(e)
    }
}

impl vstd::std_specs::convert::FromSpecImpl<AuthError> for ApiError {
    open spec fn obeys_from_spec() -> bool {
        true
    }

    open spec fn from_spec(e: AuthError) -> ApiError {
        ApiError::AuthError(e)
    }
}

/// Every error has a client-error status or is a server fault, and it is a
/// server fault exactly for storage failures, a token that cannot be
/// issued, a failed hash and an identifier that does not parse.
pub proof fn lemma_server_fault_only_for_infrastructure(e: ApiError)
    ensures
        e.status_code() == STATUS_INTERNAL_SERVER_ERROR <==> (e is Database || e is Token || e
            == ApiError::Query(UserError::HashPassword) || e == ApiError::Query(
            UserError::ParseUuid,
        )),
        e.status_code() == STATUS_INTERNAL_SERVER_ERROR || (400 <= e.status_code() < 500),
{
}

} // verus!
