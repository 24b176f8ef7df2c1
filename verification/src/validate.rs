//! Structural validation of submitted credentials.
//!
//! An email must match the email grammar; a password must have at least
//! eight characters. Violations are collected, not short-circuited, so a
//! caller can report every problem at once.

use vstd::prelude::*;

use validator::ValidateEmail;

use crate::errors::ValidationErrors;
use crate::errors::ValidationIssue;
use crate::models::AuthCredentialsDto;
use crate::service::AuthService;

verus! {

/// The fewest characters a password may have.
pub const MIN_PASSWORD_CHARS: usize = 8;

/// Whether a string satisfies the email grammar.
pub uninterp spec fn email_ok(s: Seq<char>) -> bool;

/// The rules the given email and password violate, email rule first.
pub open spec fn violations(email: Seq<char>, password: Seq<char>) -> Seq<ValidationIssue> {
    let email_part = if !email_ok(email) {
        seq![ValidationIssue::InvalidEmail]
    } else {
        Seq::<ValidationIssue>::empty()
    };
    let password_part = if password.len() < MIN_PASSWORD_CHARS {
        seq![ValidationIssue::PasswordTooShort]
    } else {
        Seq::<ValidationIssue>::empty()
    };
    email_part + password_part
}

/// Relies on `ValidateEmail::validate_email` of the validator crate:
/// whether a string matches its email grammar (the HTML5 form) is a
/// function of the string alone.
#[verifier::external_body]
fn email_is_valid(s: &str) -> (r: bool)
    ensures
        r == email_ok(s@),
{
    s.validate_email()
}

impl AuthService {
    /// Checks the structural shape of submitted credentials: accepts
    /// exactly when the email matches the grammar and the password has at
    /// least the minimum number of characters, and otherwise reports
    /// every violated rule.
    pub fn validate_credentials(auth_credentials_dto: &AuthCredentialsDto) -> (r: Result<
        (),
        ValidationErrors,
    >)
        ensures
            r is Ok <==> email_ok(auth_credentials_dto.email@)
                && auth_credentials_dto.password@.len() >= MIN_PASSWORD_CHARS,
            r matches Err(e) ==> e.issues@ == violations(
                auth_credentials_dto.email@,
                auth_credentials_dto.password@,
            ),
    {
        let mut issues: Vec<ValidationIssue> = Vec::new();
        if !email_is_valid(auth_credentials_dto.email.as_str()) {
            issues.push(ValidationIssue::InvalidEmail);
        }
        if auth_credentials_dto.password.as_str().unicode_len() < MIN_PASSWORD_CHARS {
            issues.push(ValidationIssue::PasswordTooShort);
        }
        if issues.len() == 0 {
            proof {
                assert(violations(
                    auth_credentials_dto.email@,
                    auth_credentials_dto.password@,
                ) =~= Seq::<ValidationIssue>::empty());
            }
            Ok(())
        } else {
            proof {
                assert(issues@ =~= violations(
                    auth_credentials_dto.email@,
                    auth_credentials_dto.password@,
                ));
            }
            Err(ValidationErrors { issues })
        }
    }
}

} // verus!
