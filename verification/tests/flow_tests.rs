use auth_core::directory::UserDirectory;
use auth_core::errors::AuthError;
use auth_core::middleware::authorize_request;
use auth_core::models::AuthCredentialsDto;
use auth_core::models::Keys;
use auth_core::service::AuthService;

fn dto(email: &str, password: &str) -> AuthCredentialsDto {
    AuthCredentialsDto { email: email.to_string(), password: password.to_string() }
}

#[test]
fn registering_the_same_email_twice_is_a_conflict() {
    let mut directory = UserDirectory::new();
    AuthService::register(&mut directory, &dto("new@x.com", "Sup3r$ecure!9")).unwrap();
    let second = AuthService::register(&mut directory, &dto("new@x.com", "0ther$trong?pw"));
    assert!(matches!(second, Err(AuthError::EmailAlreadyExists)));
    assert_eq!(directory.len(), 1);
}

#[test]
fn weak_password_is_rejected_at_registration() {
    let mut directory = UserDirectory::new();
    let r = AuthService::register(&mut directory, &dto("new@x.com", "password1"));
    assert!(matches!(r, Err(AuthError::WeakPassword)));
    assert_eq!(directory.len(), 0);
}

#[test]
fn badly_shaped_credentials_are_rejected_at_registration() {
    let mut directory = UserDirectory::new();
    let r = AuthService::register(&mut directory, &dto("not-an-email", "Sup3r$ecure!9"));
    assert!(matches!(r, Err(AuthError::ValidationError(_))));
    assert_eq!(directory.len(), 0);
}

#[test]
fn login_with_unknown_email_is_wrong_credentials() {
    let directory = UserDirectory::new();
    let keys = Keys::new(b"secret");
    let r = AuthService::login(&directory, &keys, "who@x.com", "Sup3r$ecure!9");
    assert!(matches!(r, Err(AuthError::WrongCredentials)));
}

#[test]
fn login_with_wrong_password_is_wrong_credentials() {
    let mut directory = UserDirectory::new();
    let keys = Keys::new(b"secret");
    AuthService::register(&mut directory, &dto("new@x.com", "Sup3r$ecure!9")).unwrap();
    let user = AuthService::find_user_by_email(&directory, "new@x.com").unwrap();
    let token = user.verification_token.clone().unwrap();
    AuthService::verify(&mut directory, &token).unwrap();
    let r = AuthService::login(&directory, &keys, "new@x.com", "Wr0ng$ecure!9");
    assert!(matches!(r, Err(AuthError::WrongCredentials)));
}

#[test]
fn verify_with_unknown_token_is_rejected() {
    let mut directory = UserDirectory::new();
    let r = AuthService::verify(&mut directory, "no-such-token");
    assert!(matches!(r, Err(AuthError::InvalidOrExpiredToken)));
}

#[test]
fn verification_token_is_single_use() {
    let mut directory = UserDirectory::new();
    AuthService::register(&mut directory, &dto("new@x.com", "Sup3r$ecure!9")).unwrap();
    let user = AuthService::find_user_by_email(&directory, "new@x.com").unwrap();
    let token = user.verification_token.clone().unwrap();
    AuthService::verify(&mut directory, &token).unwrap();
    let again = AuthService::verify(&mut directory, &token);
    assert!(matches!(again, Err(AuthError::InvalidOrExpiredToken)));
}

#[test]
fn end_to_end_register_verify_login_and_authorize() {
    let mut directory = UserDirectory::new();
    let keys = Keys::new(b"a-process-wide-signing-secret");

    AuthService::register(&mut directory, &dto("new@x.com", "Sup3r$ecure!9")).unwrap();
    let user = AuthService::find_user_by_email(&directory, "new@x.com").unwrap();
    assert!(!user.verified);
    let verification_token = user.verification_token.clone().unwrap();
    assert_eq!(verification_token.chars().count(), 32);
    assert!(verification_token.chars().all(|c| c.is_ascii_alphanumeric()));

    let before = AuthService::login(&directory, &keys, "new@x.com", "Sup3r$ecure!9");
    assert!(matches!(before, Err(AuthError::EmailNotVerified)));

    AuthService::verify(&mut directory, &verification_token).unwrap();
    let verified_user = AuthService::find_user_by_email(&directory, "new@x.com").unwrap();
    assert!(verified_user.verified);
    assert!(verified_user.verification_token.is_none());

    let response = AuthService::login(&directory, &keys, "new@x.com", "Sup3r$ecure!9").unwrap();
    assert_eq!(response.token_type, "Bearer");

    let header = format!("Bearer {}", response.token);
    let claims = authorize_request(&keys, Some(&header)).unwrap();
    assert_eq!(claims.sub, verified_user.id);
    assert_eq!(claims.company, "new@x.com");
}

#[test]
fn two_registrations_draw_different_verification_tokens() {
    let mut directory = UserDirectory::new();
    AuthService::register(&mut directory, &dto("one@x.com", "Sup3r$ecure!9")).unwrap();
    AuthService::register(&mut directory, &dto("two@x.com", "Sup3r$ecure!9")).unwrap();
    let first = AuthService::find_user_by_email(&directory, "one@x.com").unwrap();
    let second = AuthService::find_user_by_email(&directory, "two@x.com").unwrap();
    assert_ne!(first.verification_token, second.verification_token);
    assert_ne!(first.id, second.id);
}
