//! The resource server.

pub mod config;
pub mod session;
pub mod handlers;
