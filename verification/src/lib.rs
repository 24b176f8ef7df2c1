//! Authentication and session-authorization core.
//!
//! The crate turns an email/password pair into a signed, time-bounded
//! identity token and turns such a token on a later request into a trusted
//! identity claim. It covers password hashing and verification, credential
//! shape validation, password strength policy, token issuance and
//! verification, one-time email-verification tokens, an in-memory user
//! directory, and the middleware decision that admits or rejects a
//! request by its `Authorization` header.

pub mod config;
pub mod directory;
pub mod errors;
pub mod middleware;
pub mod models;
pub mod password;
pub mod service;
pub mod text;
pub mod token;
pub mod users;
pub mod validate;
pub mod verification;
