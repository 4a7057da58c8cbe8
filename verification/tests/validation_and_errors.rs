//! Input validation rules and the status codes of the error taxonomy.

use auth_core::errors::ApiError;
use auth_core::errors::AuthError;
use auth_core::errors::TwoFactorError;
use auth_core::errors::ValidationError;
use auth_core::validate;

#[test]
fn nickname_rules() {
    assert!(validate::nickname("merlin").is_ok());
    assert!(validate::nickname("a_b-3").is_ok());
    assert_eq!(validate::nickname(" padded"), Err(ValidationError::Trim));
    assert_eq!(validate::nickname("padded "), Err(ValidationError::Trim));
    assert_eq!(validate::nickname("ab"), Err(ValidationError::Length));
    assert_eq!(
        validate::nickname("seventeen-letters"),
        Err(ValidationError::Length)
    );
    assert_eq!(validate::nickname("a b c"), Err(ValidationError::Whitespace));
    assert_eq!(
        validate::nickname("not.allowed"),
        Err(ValidationError::InvalidChars)
    );
}

#[test]
fn password_rules() {
    assert!(validate::password("12345678").is_ok());
    assert_eq!(validate::password("1234567"), Err(ValidationError::Length));
    let long = "x".repeat(128);
    assert!(validate::password(&long).is_ok());
    let too_long = "x".repeat(129);
    assert_eq!(validate::password(&too_long), Err(ValidationError::Length));
}

#[test]
fn credential_failures_stay_minimal() {
    // Credential and token errors map to the 401 class with no detail that
    // could reveal which of email, password or second factor was wrong.
    assert_eq!(ApiError::Auth(AuthError::InvalidCredentials).status_code(), 401);
    assert_eq!(ApiError::Auth(AuthError::SessionMismatch).status_code(), 401);
    assert_eq!(ApiError::Auth(AuthError::SessionNotFound).status_code(), 401);
    assert_eq!(ApiError::Auth(AuthError::NeedReauth).status_code(), 401);
    assert_eq!(ApiError::Auth(AuthError::InvalidJwt).status_code(), 401);
}

#[test]
fn remaining_status_codes() {
    assert_eq!(ApiError::Validation(ValidationError::Length).status_code(), 400);
    assert_eq!(ApiError::Conflict.status_code(), 409);
    assert_eq!(ApiError::NotFound.status_code(), 404);
    assert_eq!(ApiError::PasswordHash.status_code(), 500);
    assert_eq!(ApiError::Internal.status_code(), 500);
    assert_eq!(ApiError::TwoFa(TwoFactorError::Internal).status_code(), 500);
    assert_eq!(ApiError::TwoFa(TwoFactorError::NotStarted).status_code(), 400);
    // Logout is a deliberate terminal signal, not a failure.
    assert_eq!(ApiError::Auth(AuthError::DidLogout).status_code(), 200);
}
