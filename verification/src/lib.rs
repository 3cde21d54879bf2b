//! Account service core: password hashing, signed session tokens, credential
//! extraction, the two session policies and the decisions of the account
//! handlers, each with a machine-checked contract.
pub mod api;
pub mod config;
pub mod db;
pub mod frontend;
pub mod resources;
pub mod text;
