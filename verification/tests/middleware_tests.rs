use auth_core::errors::AuthError;
use auth_core::middleware::authorize_request;
use auth_core::middleware::authorize_request_at;
use auth_core::middleware::extract_bearer_token;
use auth_core::models::Keys;
use auth_core::token::TOKEN_TTL_SECONDS;
use auth_core::token::issue_at;

const NOW: i64 = 1_700_000_000;

fn keys() -> Keys {
    Keys::new(b"a-process-wide-signing-secret")
}

#[test]
fn missing_authorization_header_is_rejected() {
    let r = authorize_request(&keys(), None);
    assert!(matches!(r, Err(AuthError::InvalidToken)));
}

#[test]
fn header_without_bearer_scheme_is_rejected() {
    let r = authorize_request(&keys(), Some("Basic dXNlcjpwYXNz"));
    assert!(matches!(r, Err(AuthError::InvalidToken)));
}

#[test]
fn garbled_bearer_token_is_rejected() {
    let r = authorize_request(&keys(), Some("Bearer %%%not-a-jwt%%%"));
    assert!(matches!(r, Err(AuthError::InvalidToken)));
}

#[test]
fn expired_bearer_token_is_rejected() {
    let keys = keys();
    let resp = issue_at(&keys, 42, "a@b.com", NOW).unwrap();
    let header = format!("Bearer {}", resp.token);
    let r = authorize_request_at(&keys, Some(&header), NOW + TOKEN_TTL_SECONDS + 1);
    assert!(matches!(r, Err(AuthError::InvalidToken)));
}

#[test]
fn valid_bearer_token_is_admitted_with_its_claims() {
    let keys = keys();
    let resp = issue_at(&keys, 42, "a@b.com", NOW).unwrap();
    let header = format!("Bearer {}", resp.token);
    let claims = authorize_request_at(&keys, Some(&header), NOW + 1).unwrap();
    assert_eq!(claims.sub, 42);
}

#[test]
fn extract_bearer_token_strips_exactly_the_scheme() {
    assert_eq!(extract_bearer_token("Bearer abc.def.ghi").unwrap(), "abc.def.ghi");
    assert!(extract_bearer_token("bearer abc").is_none());
    assert!(extract_bearer_token("Bearer").is_none());
    assert_eq!(extract_bearer_token("Bearer "), Some(String::new()));
}
