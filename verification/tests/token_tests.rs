use auth_core::models::Keys;
use auth_core::token::TOKEN_TTL_SECONDS;
use auth_core::token::issue_at;
use auth_core::token::validate_token_at;

const NOW: i64 = 1_700_000_000;

fn keys() -> Keys {
    Keys::new(b"a-process-wide-signing-secret")
}

#[test]
fn issued_token_round_trips_to_its_claims() {
    let keys = keys();
    let resp = issue_at(&keys, 42, "a@b.com", NOW).unwrap();
    let claims = validate_token_at(&keys, &resp.token, NOW + 10).unwrap();
    assert_eq!(claims.sub, 42);
    assert_eq!(claims.company, "a@b.com");
    assert_eq!(claims.exp, (NOW + TOKEN_TTL_SECONDS) as u64);
}

#[test]
fn token_type_label_is_bearer() {
    let keys = keys();
    let resp = issue_at(&keys, 7, "x@y.com", NOW).unwrap();
    assert_eq!(resp.token_type, "Bearer");
}

#[test]
fn expired_token_fails_verification() {
    let keys = keys();
    let resp = issue_at(&keys, 42, "a@b.com", NOW).unwrap();
    let r = validate_token_at(&keys, &resp.token, NOW + TOKEN_TTL_SECONDS);
    assert!(matches!(r, Err(auth_core::errors::AuthError::InvalidToken)));
}

#[test]
fn token_under_a_different_secret_fails_verification() {
    let keys = keys();
    let other = Keys::new(b"another-secret-entirely");
    let resp = issue_at(&keys, 42, "a@b.com", NOW).unwrap();
    let r = validate_token_at(&other, &resp.token, NOW + 10);
    assert!(r.is_err());
}

#[test]
fn garbage_token_fails_verification() {
    let keys = keys();
    let r = validate_token_at(&keys, "not.a.token", NOW);
    assert!(matches!(r, Err(auth_core::errors::AuthError::InvalidToken)));
}

#[test]
fn issuing_with_a_clock_before_the_epoch_fails_token_creation() {
    let r = issue_at(&keys(), 1, "a@b.com", -1);
    assert!(matches!(r, Err(auth_core::errors::AuthError::TokenCreationError)));
}

#[test]
fn token_is_not_the_claims_in_clear() {
    let keys = keys();
    let resp = issue_at(&keys, 42, "a@b.com", NOW).unwrap();
    assert!(!resp.token.contains("a@b.com"));
}
