//! The error taxonomy of the authentication core.
//!
//! Every failure of a lower component is translated into exactly one of
//! these kinds before it crosses the service boundary; the HTTP layer is
//! only expected to map each kind to a status code, which `http_status`
//! does as a pure function.

use vstd::prelude::*;

verus! {

/// One structural rule of credential validation that a submission broke.
#[derive(Clone, Copy, Debug, PartialEq, Eq, Structural)]
pub enum ValidationIssue {
    /// The email does not match the email grammar.
    InvalidEmail,
    /// The password has fewer than eight characters.
    PasswordTooShort,
}

/// Every rule a credential submission violated, collected rather than
/// short-circuited, so the caller can report all problems at once.
#[derive(Debug)]
pub struct ValidationErrors {
    pub issues: Vec<ValidationIssue>,
}

impl ValidationErrors {
    /// True when no rule was violated.
    pub fn is_empty(&self) -> (r: bool)
        ensures
            r == (self.issues@.len() == 0),
    {
        self.issues.len() == 0
    }
}

/// The failure kinds of the authentication core.
#[derive(Debug)]
pub enum AuthError {
    /// Unknown email or wrong password; the two are deliberately
    /// indistinguishable to prevent account enumeration.
    WrongCredentials,
    /// The request carried no credentials at all.
    MissingCredentials,
    /// Signing a new token failed.
    TokenCreationError,
    /// A session token that is malformed, forged or expired.
    InvalidToken,
    /// The password is too guessable for the strength policy.
    WeakPassword,
    /// The submitted credentials broke structural rules.
    ValidationError(ValidationErrors),
    /// A record with this email already exists.
    EmailAlreadyExists,
    /// The account exists but its email was never verified.
    EmailNotVerified,
    /// An email-verification token that matches no record.
    InvalidOrExpiredToken,
    /// The password hasher failed, e.g. for want of entropy.
    HashingError,
    /// The user store refused an insert or update.
    PersistenceError,
    /// The verification email could not be handed to the notifier.
    NotificationError,
}

impl AuthError {
    /// The HTTP status code this error maps to at the transport boundary.
    pub fn http_status(&self) -> (r: u16)
        ensures
            r == match *self {
                AuthError::WrongCredentials => 401u16,
                AuthError::MissingCredentials => 400u16,
                AuthError::TokenCreationError => 500u16,
                AuthError::InvalidToken => 400u16,
                AuthError::WeakPassword => 400u16,
                AuthError::ValidationError(_) => 400u16,
                AuthError::EmailAlreadyExists => 409u16,
                AuthError::EmailNotVerified => 401u16,
                AuthError::InvalidOrExpiredToken => 400u16,
                AuthError::HashingError => 500u16,
                AuthError::PersistenceError => 500u16,
                AuthError::NotificationError => 500u16,
            },
    {
        match self {
            AuthError::WrongCredentials => 401,
            AuthError::MissingCredentials => 400,
            AuthError::TokenCreationError => 500,
            AuthError::InvalidToken => 400,
            AuthError::WeakPassword => 400,
            AuthError::ValidationError(_) => 400,
            AuthError::EmailAlreadyExists => 409,
            AuthError::EmailNotVerified => 401,
            AuthError::InvalidOrExpiredToken => 400,
            AuthError::HashingError => 500,
            AuthError::PersistenceError => 500,
            AuthError::NotificationError => 500,
        }
    }
}

/// The failure kinds of user lookup outside the authentication flows.
#[derive(Clone, Copy, Debug, PartialEq, Eq, Structural)]
pub enum UserError {
    NotFound,
    InternalServerError,
}

impl UserError {
    /// The HTTP status code this error maps to at the transport boundary.
    pub fn http_status(&self) -> (r: u16)
        ensures
            r == match *self {
                UserError::NotFound => 404u16,
                UserError::InternalServerError => 500u16,
            },
    {
        match self {
            UserError::NotFound => 404,
            UserError::InternalServerError => 500,
        }
    }
}

} // verus!
