//! The authentication service.

pub mod errors;
pub mod config;
pub mod handlers;
pub mod passwords;
pub mod paseto;
pub mod cookies;
pub mod users;
pub mod sessions;
pub mod signing_keys;
pub mod extractors;
