//! Validation rules for an interactive Argon2 password-hashing session.

pub mod codec;
pub mod fields;
pub mod laws;
pub mod secret;
pub mod session;
pub mod text;
