//! Authentication and account operations.
pub mod cookie;
pub mod errors;
pub mod middleware;
pub mod password;
pub mod token;
pub mod user;
