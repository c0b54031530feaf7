//! Verified core of a timer/task tracking server: user rights, error
//! classification, credential handling, session tokens, request guards and
//! the event messages pushed to connected clients.
pub mod models;
pub mod text;
pub mod errors;
pub mod events;
pub mod requests;
pub mod guards;
pub mod credentials;
pub mod tokens;
pub mod db_ops;
pub mod configuration;
