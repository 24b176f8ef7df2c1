//! Issuance and verification of signed, time-bounded session tokens.
//!
//! A token carries the subject's user id, a label, and an expiry fixed at
//! issuance time plus a constant time-to-live. Validity is purely computed
//! at verification time from the signature and the clock; nothing is
//! stored server-side and nothing can be revoked. Verification does not
//! tell a caller which check failed: malformed input, a bad signature and
//! an expired token all collapse into the same error.

use vstd::prelude::*;

use crate::errors::AuthError;
use crate::models::AuthResponse;
use crate::models::Claims;
use crate::models::Keys;
use crate::service::AuthService;

verus! {

/// How long an issued token stays valid, in seconds: fourteen days.
pub const TOKEN_TTL_SECONDS: i64 = 14 * 24 * 60 * 60;

/// The claims embedded in a token that is authentic under the secret:
/// the subject id, the label, and the expiry instant. `None` for every
/// string that is not such a token.
pub uninterp spec fn jwt_claims_of(secret: Seq<u8>, token: Seq<char>) -> Option<
    (int, Seq<char>, int),
>;

/// Whether a token is authentic under the secret and unexpired at `now`.
pub open spec fn token_claims_valid(secret: Seq<u8>, token: Seq<char>, now: int) -> bool {
    match jwt_claims_of(secret, token) {
        Some(c) => c.2 > now,
        None => false,
    }
}

/// Signs the claims into a compact token.
///
/// Relies on `jsonwebtoken::encode` with the default header (HMAC-SHA256)
/// and on `jsonwebtoken::decode` under the same secret: a token produced
/// here decodes back to exactly the claims that went in. Signing always
/// succeeds: HMAC accepts a secret of any length, serializing these
/// claims cannot fail, and the default header's algorithm is in the
/// key's family, so no error path of `encode` is reachable.
#[verifier::external_body]
fn jwt_encode(secret: &Vec<u8>, sub: i32, company: &str, exp: u64) -> (r: Result<String, ()>)
    ensures
        r is Ok,
        match r {
            Ok(t) => jwt_claims_of(secret@, t@) == Some((sub as int, company@, exp as int)),
            Err(_) => true,
        },
{
    let mut claims = serde_json::Map::new();
    claims.insert("sub".to_string(), serde_json::Value::from(sub));
    claims.insert("company".to_string(), serde_json::Value::from(company));
    claims.insert("exp".to_string(), serde_json::Value::from(exp));
    jsonwebtoken::encode(
        &jsonwebtoken::Header::default(),
        &serde_json::Value::Object(claims),
        &jsonwebtoken::EncodingKey::from_secret(secret.as_slice()),
    )
        .map_err(|_| ())
}

/// Checks the token's signature under the secret and extracts its claims,
/// leaving the expiry comparison to the caller.
///
/// Relies on `jsonwebtoken::decode` with expiry validation switched off:
/// with a fixed validation configuration, decoding and signature checking
/// are a function of the secret and the token alone.
#[verifier::external_body]
fn jwt_decode(secret: &Vec<u8>, token: &str) -> (r: Option<Claims>)
    ensures
        match r {
            Some(c) => jwt_claims_of(secret@, token@) == Some(
                (c.sub as int, c.company@, c.exp as int),
            ),
            None => jwt_claims_of(secret@, token@) is None,
        },
{
    let mut validation = jsonwebtoken::Validation::default();
    validation.validate_exp = false;
    validation.required_spec_claims = std::collections::HashSet::new();
    let key = jsonwebtoken::DecodingKey::from_secret(secret.as_slice());
    let data = match jsonwebtoken::decode::<serde_json::Value>(token, &key, &validation) {
        Ok(d) => d,
        Err(_) => return None,
    };
    let sub = i32::try_from(data.claims.get("sub")?.as_i64()?).ok()?;
    let company = data.claims.get("company")?.as_str()?.to_string();
    let exp = data.claims.get("exp")?.as_u64()?;
    Some(Claims { sub, company, exp })
}

/// The current wall clock, as unix seconds.
///
/// Relies on `chrono::Utc::now`; nothing is assumed of the value it
/// returns.
#[verifier::external_body]
pub(crate) fn now_ts() -> i64 {
    chrono::Utc::now().timestamp()
}

/// Builds and signs the claims for a session starting at `now`: the
/// expiry is exactly `now` plus the fixed time-to-live. A token is owed
/// whenever that expiry is representable — before the epoch or too near
/// the end of time it fails with `TokenCreationError`, and never
/// otherwise.
pub fn issue_at(keys: &Keys, user_id: i32, email: &str, now: i64) -> (r: Result<
    AuthResponse,
    AuthError,
>)
    ensures
        r is Ok <==> 0 <= now <= i64::MAX - TOKEN_TTL_SECONDS,
        r matches Ok(resp) ==> jwt_claims_of(keys@, resp.token@) == Some(
            (user_id as int, email@, now + TOKEN_TTL_SECONDS),
        ) && resp.token_type@ == "Bearer"@,
        r matches Err(e) ==> e is TokenCreationError,
{
    if now < 0 || now > i64::MAX - TOKEN_TTL_SECONDS {
        return Err(AuthError::TokenCreationError);
    }
    let exp = (now + TOKEN_TTL_SECONDS) as u64;
    match jwt_encode(keys.secret_bytes(), user_id, email, exp) {
        Ok(token) => Ok(AuthResponse::new(token)),
        Err(_) => Err(AuthError::TokenCreationError),
    }
}

/// Decides a token's validity against the instant `now`: authentic and
/// unexpired exactly when the result is the embedded claims, and the
/// indistinct `InvalidToken` otherwise.
pub fn validate_token_at(keys: &Keys, token: &str, now: i64) -> (r: Result<Claims, AuthError>)
    ensures
        r is Ok <==> token_claims_valid(keys@, token@, now as int),
        r matches Ok(c) ==> jwt_claims_of(keys@, token@) == Some(
            (c.sub as int, c.company@, c.exp as int),
        ),
        r matches Err(e) ==> e is InvalidToken,
{
    match jwt_decode(keys.secret_bytes(), token) {
        None => Err(AuthError::InvalidToken),
        Some(c) => {
            let unexpired = if now < 0 {
                true
            } else {
                c.exp > (now as u64)
            };
            if unexpired {
                Ok(c)
            } else {
                Err(AuthError::InvalidToken)
            }
        },
    }
}

impl AuthService {
    /// Issues a session token for the user, expiring a fixed time after
    /// the present instant. By `issue_at` a token is owed unless the
    /// clock reads before the epoch or past the last representable
    /// expiry; a failure is always `TokenCreationError`.
    pub fn create_auth_response(keys: &Keys, user: &crate::directory::User) -> (r: Result<
        AuthResponse,
        AuthError,
    >)
        ensures
            r matches Ok(resp) ==> (jwt_claims_of(keys@, resp.token@) matches Some(c) && c.0
                == user.id as int && c.1 == user.email@) && resp.token_type@ == "Bearer"@,
            r matches Err(e) ==> e is TokenCreationError,
    {
        let now = now_ts();
        issue_at(keys, user.id, user.email.as_str(), now)
    }

    /// Verifies a presented token against the present instant. An
    /// authentic, unexpired token yields its claims; everything else
    /// fails with the indistinct `InvalidToken`.
    pub fn validate_token(keys: &Keys, token: &str) -> (r: Result<Claims, AuthError>)
        ensures
            r matches Ok(c) ==> jwt_claims_of(keys@, token@) == Some(
                (c.sub as int, c.company@, c.exp as int),
            ),
            jwt_claims_of(keys@, token@) is None ==> r is Err,
            r matches Err(e) ==> e is InvalidToken,
    {
        let now = now_ts();
        validate_token_at(keys, token, now)
    }
}

/// Round trip: a token issued under a secret for a subject carries that
/// subject, so before its expiry it verifies to claims bearing it.
pub proof fn lemma_token_round_trip(
    secret: Seq<u8>,
    token: Seq<char>,
    sub: int,
    email: Seq<char>,
    exp: int,
    now: int,
)
    requires
        jwt_claims_of(secret, token) == Some((sub, email, exp)),
        now < exp,
    ensures
        token_claims_valid(secret, token, now),
        jwt_claims_of(secret, token)->Some_0.0 == sub,
{
}

/// A token whose embedded expiry is not in the future never verifies,
/// whatever else is true of it.
pub proof fn lemma_expired_token_rejected(
    secret: Seq<u8>,
    token: Seq<char>,
    sub: int,
    email: Seq<char>,
    exp: int,
    now: int,
)
    requires
        jwt_claims_of(secret, token) == Some((sub, email, exp)),
        exp <= now,
    ensures
        !token_claims_valid(secret, token, now),
{
}

} // verus!
