//! The request middleware: from a raw `Authorization` header value to
//! a trusted identity claim.
//!
//! A request moves through extraction and verification, or short-circuits
//! to rejection at either step: a missing header, one without the
//! `Bearer ` scheme, a forged or malformed token, and an expired one are
//! all rejected alike. On success the caller receives the claims to
//! attach to the request; this step authenticates and does nothing more.

use vstd::prelude::*;

use crate::errors::AuthError;
use crate::models::Claims;
use crate::models::Keys;
use crate::text::str_starts_with;
use crate::token::jwt_claims_of;
use crate::token::token_claims_valid;
use crate::token::validate_token_at;

verus! {

/// The bearer token carried by an `Authorization` header value: what
/// follows the `Bearer ` scheme prefix, when the header has it.
pub open spec fn bearer_token_of(header: Seq<char>) -> Option<Seq<char>> {
    if header.len() >= "Bearer "@.len() && header.subrange(0, "Bearer "@.len() as int)
        == "Bearer "@ {
        Some(header.subrange("Bearer "@.len() as int, header.len() as int))
    } else {
        None
    }
}

/// Whether a request whose `Authorization` header reads `authorization`
/// is admitted at the instant `now`: the header is present, carries
/// the `Bearer ` scheme, and its token is authentic and unexpired.
pub open spec fn request_admitted(
    secret: Seq<u8>,
    authorization: Option<Seq<char>>,
    now: int,
) -> bool {
    match authorization {
        Some(h) => match bearer_token_of(h) {
            Some(t) => token_claims_valid(secret, t, now),
            None => false,
        },
        None => false,
    }
}

/// Strips the `Bearer ` scheme from a header value, yielding the token.
pub fn extract_bearer_token(header: &str) -> (r: Option<String>)
    ensures
        r is Some <==> bearer_token_of(header@) is Some,
        r matches Some(t) ==> bearer_token_of(header@) == Some(t@),
{
    proof {
        reveal_strlit("Bearer ");
    }
    if !str_starts_with(header, "Bearer ") {
        return None;
    }
    let len = header.unicode_len();
    let token = header.substring_char(7, len);
    Some(token.to_owned())
}

/// Decides a request by its `Authorization` header against the instant
/// `now`: admitted exactly when the header carries an authentic,
/// unexpired bearer token, whose claims are returned; every other
/// request is rejected, with nothing said about which check failed.
pub fn authorize_request_at(keys: &Keys, authorization: Option<&str>, now: i64) -> (r: Result<
    Claims,
    AuthError,
>)
    ensures
        r is Ok <==> request_admitted(
            keys@,
            match authorization {
                Some(h) => Some(h@),
                None => None,
            },
            now as int,
        ),
        r matches Ok(c) ==> (authorization matches Some(h) && bearer_token_of(h@) matches Some(t)
            && jwt_claims_of(keys@, t) == Some((c.sub as int, c.company@, c.exp as int))),
        r matches Err(e) ==> e is InvalidToken,
{
    let header = match authorization {
        Some(h) => h,
        None => { return Err(AuthError::InvalidToken) },
    };
    let token = match extract_bearer_token(header) {
        Some(t) => t,
        None => { return Err(AuthError::InvalidToken) },
    };
    validate_token_at(keys, token.as_str(), now)
}

/// Decides a request by its `Authorization` header against the present
/// instant. An admitted request yields the token's claims; a missing or
/// malformed header and a forged or expired token are rejected alike.
pub fn authorize_request(keys: &Keys, authorization: Option<&str>) -> (r: Result<
    Claims,
    AuthError,
>)
    ensures
        r matches Ok(c) ==> (authorization matches Some(h) && bearer_token_of(h@) matches Some(t)
            && jwt_claims_of(keys@, t) == Some((c.sub as int, c.company@, c.exp as int))),
        authorization is None ==> r is Err,
        (authorization matches Some(h) && bearer_token_of(h@) is None) ==> r is Err,
        r matches Err(e) ==> e is InvalidToken,
{
    let now = crate::token::now_ts();
    authorize_request_at(keys, authorization, now)
}

/// No request whose header is missing, does not
/// carry the `Bearer ` scheme, or carries a token that is not authentic
/// and unexpired is ever forwarded.
pub proof fn lemma_invalid_request_never_admitted(
    secret: Seq<u8>,
    authorization: Option<Seq<char>>,
    now: int,
)
    requires
        match authorization {
            Some(h) => match bearer_token_of(h) {
                Some(t) => !token_claims_valid(secret, t, now),
                None => true,
            },
            None => true,
        },
    ensures
        !request_admitted(secret, authorization, now),
{
}

} // verus!
