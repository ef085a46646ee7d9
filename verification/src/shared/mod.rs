//! What both services use.

pub mod json;
pub mod responses;
pub mod serde_customs;
pub mod paserk;
pub mod keys;
pub mod clock;
pub mod text;
pub mod tokens;
pub mod validation;
pub mod claims;
