use auth_core::config::AppConfig;
use auth_core::directory::UserDirectory;
use auth_core::errors::AuthError;
use auth_core::errors::UserError;
use auth_core::models::AuthCredentialsDto;
use auth_core::models::AuthResponse;
use auth_core::service::AuthService;
use auth_core::text::str_eq;
use auth_core::text::str_starts_with;
use auth_core::users::UserSerivce;

#[test]
fn get_addr_joins_host_and_port() {
    let config = AppConfig { host: "127.0.0.1".to_string(), port: "3000".to_string() };
    assert_eq!(config.get_addr(), "127.0.0.1:3000");
}

#[test]
fn auth_response_carries_the_bearer_label() {
    let r = AuthResponse::new("tok".to_string());
    assert_eq!(r.token, "tok");
    assert_eq!(r.token_type, "Bearer");
}

#[test]
fn generated_verification_tokens_are_32_alphanumeric_chars() {
    let token = AuthService::generate_verification_token();
    assert_eq!(token.chars().count(), 32);
    assert!(token.chars().all(|c| c.is_ascii_alphanumeric()));
    assert_ne!(token, AuthService::generate_verification_token());
}

#[test]
fn verification_message_carries_the_link_with_the_token() {
    assert_eq!(
        auth_core::verification::verification_link("tok123"),
        "http://localhost:3000/verify?token=tok123"
    );
    assert_eq!(
        auth_core::verification::verification_message("tok123"),
        "Click on the link to verify your email: http://localhost:3000/verify?token=tok123"
    );
}

#[test]
fn strength_floor_sits_exactly_at_level_three() {
    assert!(!AuthService::strength_acceptable(0));
    assert!(!AuthService::strength_acceptable(2));
    assert!(AuthService::strength_acceptable(3));
    assert!(AuthService::strength_acceptable(4));
}

#[test]
fn verification_email_to_a_valid_address_is_handed_over() {
    assert!(AuthService::send_verification_email("new@x.com", "sometoken").is_ok());
}

#[test]
fn verification_email_to_a_hopeless_address_fails() {
    assert!(AuthService::send_verification_email("not an address", "sometoken").is_err());
}

#[test]
fn user_lookup_by_id_finds_the_registered_record() {
    let mut directory = UserDirectory::new();
    let dto = AuthCredentialsDto {
        email: "new@x.com".to_string(),
        password: "Sup3r$ecure!9".to_string(),
    };
    AuthService::register(&mut directory, &dto).unwrap();
    let user = AuthService::find_user_by_email(&directory, "new@x.com").unwrap();
    let by_id = UserSerivce::get_user_by_id(&directory, user.id).unwrap();
    assert_eq!(by_id.email, "new@x.com");
    assert!(matches!(
        UserSerivce::get_user_by_id(&directory, user.id + 1),
        Err(UserError::NotFound)
    ));
}

#[test]
fn error_kinds_map_to_their_status_codes() {
    assert_eq!(AuthError::WrongCredentials.http_status(), 401);
    assert_eq!(AuthError::MissingCredentials.http_status(), 400);
    assert_eq!(AuthError::TokenCreationError.http_status(), 500);
    assert_eq!(AuthError::InvalidToken.http_status(), 400);
    assert_eq!(AuthError::WeakPassword.http_status(), 400);
    let shape = AuthError::ValidationError(auth_core::errors::ValidationErrors { issues: vec![] });
    assert_eq!(shape.http_status(), 400);
    assert_eq!(AuthError::EmailAlreadyExists.http_status(), 409);
    assert_eq!(AuthError::EmailNotVerified.http_status(), 401);
    assert_eq!(AuthError::InvalidOrExpiredToken.http_status(), 400);
    assert_eq!(AuthError::HashingError.http_status(), 500);
    assert_eq!(AuthError::PersistenceError.http_status(), 500);
    assert_eq!(AuthError::NotificationError.http_status(), 500);
    assert_eq!(UserError::NotFound.http_status(), 404);
    assert_eq!(UserError::InternalServerError.http_status(), 500);
}

#[test]
fn str_helpers_compare_by_characters() {
    assert!(str_eq("abc", "abc"));
    assert!(!str_eq("abc", "abd"));
    assert!(!str_eq("abc", "abcd"));
    assert!(str_starts_with("Bearer xyz", "Bearer "));
    assert!(!str_starts_with("Bear", "Bearer "));
}
