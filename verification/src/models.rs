//! Transient data carried through the authentication flows.

use vstd::prelude::*;

verus! {

/// An email/password pair as submitted by a client. It is constructed from
/// a request body, consumed within one request, and never persisted.
#[derive(Debug)]
pub struct AuthCredentialsDto {
    pub email: String,
    pub password: String,
}

impl Clone for AuthCredentialsDto {
    fn clone(&self) -> (res: Self)
        ensures
            res == *self,
    {
        AuthCredentialsDto { email: self.email.clone(), password: self.password.clone() }
    }
}

/// The signed payload of a session token: the subject's user id, a label
/// for whom the token was issued, and a unix-seconds expiry instant.
#[derive(Debug)]
pub struct Claims {
    pub sub: i32,
    pub company: String,
    pub exp: u64,
}

impl Clone for Claims {
    fn clone(&self) -> (res: Self)
        ensures
            res == *self,
    {
        Claims { sub: self.sub, company: self.company.clone(), exp: self.exp }
    }
}

/// A freshly issued session token together with its fixed scheme label.
#[derive(Debug)]
pub struct AuthResponse {
    pub token: String,
    pub token_type: String,
}

impl AuthResponse {
    /// Wraps a signed token under the `Bearer` scheme label.
    pub fn new(token: String) -> (r: Self)
        ensures
            r.token == token,
            r.token_type@ == "Bearer"@,
    {
        AuthResponse { token, token_type: "Bearer".to_owned() }
    }
}

/// The process-wide symmetric signing secret, constructed once at startup
/// and passed by reference into the token functions; it is never rotated
/// while the process lives.
pub struct Keys {
    secret: Vec<u8>,
}

impl View for Keys {
    type V = Seq<u8>;

    closed spec fn view(&self) -> Seq<u8> {
        self.secret@
    }
}

impl Keys {
    /// Holds a copy of the given secret bytes.
    pub fn new(secret: &[u8]) -> (r: Self)
        ensures
            r@ == secret@,
    {
        Keys { secret: vstd::slice::slice_to_vec(secret) }
    }

    /// The secret bytes, for handing to the signing primitives.
    pub(crate) fn secret_bytes(&self) -> (r: &Vec<u8>)
        ensures
            r@ == self@,
    {
        &self.secret
    }
}

} // verus!
