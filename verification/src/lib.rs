//! A verified core for a PASETO/PASERK based authentication service and the
//! resource server that trusts it: JSend responses, error mapping, request
//! validation, password strength, token claims and key identifiers, key rotation,
//! the resource server's key cache and its session decisions.

pub mod shared;
pub mod auth;
pub mod resource_server;
