//! Password verifier behavior: success exactly on a match, the dummy-hash
//! path for absent accounts, and hashing round trips.

use auth_core::errors::ApiError;
use auth_core::errors::AuthError;
use auth_core::password::hash_password;
use auth_core::password::verify_password;
use auth_core::password::PasswordContext;

#[test]
fn verify_succeeds_exactly_on_match() {
    let ctx = PasswordContext::new().unwrap();
    let hash = hash_password("sesame").unwrap();
    assert!(verify_password(&ctx, "sesame", Some(hash.as_str())).is_ok());
    let wrong = verify_password(&ctx, "ses@me", Some(hash.as_str()));
    assert!(matches!(
        wrong,
        Err(ApiError::Auth(AuthError::InvalidCredentials))
    ));
}

#[test]
fn absent_account_always_fails_like_a_wrong_password() {
    let ctx = PasswordContext::new().unwrap();
    let r = verify_password(&ctx, "anything", None);
    assert!(matches!(r, Err(ApiError::Auth(AuthError::InvalidCredentials))));
}

#[test]
fn malformed_stored_hash_is_an_internal_failure() {
    let ctx = PasswordContext::new().unwrap();
    let r = verify_password(&ctx, "anything", Some("not a phc string"));
    assert!(matches!(r, Err(ApiError::PasswordHash)));
}

#[test]
fn hashes_are_salted() {
    let a = hash_password("same input").unwrap();
    let b = hash_password("same input").unwrap();
    assert_ne!(a, b);
    let ctx = PasswordContext::new().unwrap();
    assert!(verify_password(&ctx, "same input", Some(a.as_str())).is_ok());
    assert!(verify_password(&ctx, "same input", Some(b.as_str())).is_ok());
}

#[test]
fn stored_hash_is_a_phc_string() {
    let h = hash_password("pw-of-note").unwrap();
    assert!(h.starts_with("$argon2"));
}
