use auth_core::service::AuthService;

#[test]
fn hash_then_verify_succeeds() {
    let password = "Sup3r$ecure!9";
    let hash = AuthService::hash_password(password).unwrap();
    assert_eq!(AuthService::verify_password(password, &hash).unwrap(), true);
}

#[test]
fn hashing_same_password_twice_gives_different_strings() {
    let password = "Sup3r$ecure!9";
    let first = AuthService::hash_password(password).unwrap();
    let second = AuthService::hash_password(password).unwrap();
    assert_ne!(first, second);
}

#[test]
fn hash_is_not_the_password_itself() {
    let password = "Sup3r$ecure!9";
    let hash = AuthService::hash_password(password).unwrap();
    assert_ne!(hash, password);
}

#[test]
fn verify_with_wrong_password_fails() {
    let hash = AuthService::hash_password("correct horse battery").unwrap();
    assert_eq!(
        AuthService::verify_password("wrong horse battery", &hash).unwrap(),
        false
    );
}

#[test]
fn verify_with_malformed_hash_is_an_error_not_a_mismatch() {
    let r = AuthService::verify_password("anything", "not a phc string");
    assert!(r.is_err());
}

#[test]
fn common_password_is_rejected_by_strength_policy() {
    let r = AuthService::check_password_strength("password1");
    assert_eq!(r.unwrap_err(), "Password is too weak");
}

#[test]
fn high_entropy_password_is_accepted_by_strength_policy() {
    assert!(AuthService::check_password_strength("qH7#xT2$mK9@pL4!").is_ok());
}

#[test]
fn password_at_exactly_the_strength_floor_is_accepted() {
    assert!(AuthService::check_password_strength("TestMeNow!").is_ok());
}
