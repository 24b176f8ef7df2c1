use auth_core::errors::ValidationIssue;
use auth_core::models::AuthCredentialsDto;
use auth_core::service::AuthService;

fn dto(email: &str, password: &str) -> AuthCredentialsDto {
    AuthCredentialsDto { email: email.to_string(), password: password.to_string() }
}

#[test]
fn well_formed_credentials_pass_validation() {
    assert!(AuthService::validate_credentials(&dto("new@x.com", "longenough")).is_ok());
}

#[test]
fn invalid_email_is_reported() {
    let errors = AuthService::validate_credentials(&dto("not-an-email", "longenough"))
        .unwrap_err();
    assert_eq!(errors.issues, vec![ValidationIssue::InvalidEmail]);
}

#[test]
fn seven_character_password_is_too_short() {
    let errors = AuthService::validate_credentials(&dto("new@x.com", "exact7!")).unwrap_err();
    assert_eq!(errors.issues, vec![ValidationIssue::PasswordTooShort]);
}

#[test]
fn eight_character_password_passes_the_length_rule() {
    assert!(AuthService::validate_credentials(&dto("new@x.com", "exactly8")).is_ok());
}

#[test]
fn all_violations_are_collected_not_short_circuited() {
    let errors = AuthService::validate_credentials(&dto("nope", "short")).unwrap_err();
    assert_eq!(
        errors.issues,
        vec![ValidationIssue::InvalidEmail, ValidationIssue::PasswordTooShort]
    );
    assert!(!errors.is_empty());
}

#[test]
fn empty_email_is_invalid() {
    let errors = AuthService::validate_credentials(&dto("", "longenough")).unwrap_err();
    assert_eq!(errors.issues, vec![ValidationIssue::InvalidEmail]);
}
