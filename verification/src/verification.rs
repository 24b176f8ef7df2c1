//! One-time email-verification tokens and the outbound notification.
//!
//! A verification token is a random 32-character alphanumeric string,
//! unique with overwhelming probability; the directory's uniqueness
//! constraint catches the rest. It proves control of an email address
//! once: the verify flow consumes it. The text of the verification
//! email — the fixed intro and the link carrying the token — is built in
//! verified code; only handing the finished message to the notifier is
//! trusted.

use vstd::prelude::*;

use lettre::Transport;
use rand::RngExt;

use vstd::string::StringExecFns;

use crate::service::AuthService;

verus! {

/// How many characters a verification token has.
pub const VERIFICATION_TOKEN_CHARS: usize = 32;

/// An ASCII letter or digit.
pub open spec fn is_alphanumeric_char(c: char) -> bool {
    let v = c as u32;
    (48 <= v <= 57) || (65 <= v <= 90) || (97 <= v <= 122)
}

/// The one-time link a verification email points at: the fixed verify
/// endpoint with the token as its query value.
pub open spec fn verification_link_of(token: Seq<char>) -> Seq<char> {
    "http://localhost:3000/verify?token="@ + token
}

/// The full text of a verification email: the fixed intro followed by
/// the link carrying the token.
pub open spec fn verification_message_of(token: Seq<char>) -> Seq<char> {
    "Click on the link to verify your email: "@ + verification_link_of(token)
}

/// Builds the one-time link for a verification token.
pub fn verification_link(token: &str) -> (r: String)
    ensures
        r@ == verification_link_of(token@),
{
    let base = "http://localhost:3000/verify?token=".to_owned();
    base.concat(token)
}

/// Builds the full text of the verification email for a token.
pub fn verification_message(token: &str) -> (r: String)
    ensures
        r@ == verification_message_of(token@),
{
    let intro = "Click on the link to verify your email: ".to_owned();
    let link = verification_link(token);
    intro.concat(link.as_str())
}

/// Hands a finished message body to the notifier, addressed to the
/// recipient under the fixed sender and subject.
///
/// Relies on `lettre::Message::builder` to assemble the message and on
/// the stub transport's `send` to hand it over, at most once and without
/// retry; a failure to build or send is reported, never retried, and
/// nothing is assumed of the outcome.
#[verifier::external_body]
fn send_message(email: &str, body: &str) -> Result<(), String> {
    let message = lettre::Message::builder()
        .from("noreply@yourapp.com".parse().map_err(|_| "invalid sender address".to_string())?)
        .to(email.parse().map_err(|_| "invalid recipient address".to_string())?)
        .subject("Verify your email")
        .body(body.to_string())
        .map_err(|e| e.to_string())?;
    let mailer = lettre::transport::stub::StubTransport::new_ok();
    mailer.send(&message).map_err(|e| format!("Failed to send email: {}", e))
}

impl AuthService {
    /// Draws a fresh verification token.
    ///
    /// Relies on `rand::rng` with the `Alphanumeric` distribution of the
    /// rand crate: a cryptographically secure generator sampling
    /// uniformly from ASCII letters and digits. Nothing is assumed of
    /// the outcome beyond its length and alphabet.
    #[verifier::external_body]
    pub fn generate_verification_token() -> (r: String)
        ensures
            r@.len() == VERIFICATION_TOKEN_CHARS,
            forall|i: int| 0 <= i < r@.len() ==> is_alphanumeric_char(#[trigger] r@[i]),
    {
        rand::rng()
            .sample_iter(&rand::distr::Alphanumeric)
            .take(VERIFICATION_TOKEN_CHARS)
            .map(char::from)
            .collect()
    }

    /// Builds the verification email for the token in verified code —
    /// its text is exactly `verification_message_of(token)` — and hands
    /// it to the notifier, at most once and without retry. The
    /// transport's outcome is outside the contract: a failure is
    /// surfaced to the caller, never retried.
    pub fn send_verification_email(email: &str, token: &str) -> Result<(), String> {
        let body = verification_message(token);
        send_message(email, body.as_str())
    }
}

} // verus!
