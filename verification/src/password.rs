//! Password verifier: constant-time credential checks over memory-hard
//! hashes.
//!
//! When no account matches, verification still runs against a fixed dummy
//! hash computed once at startup and deterministically fails with the same
//! error as a wrong password, removing the timing and response-shape signal
//! that would otherwise reveal whether an email exists.

use argon2::PasswordHasher;
use argon2::PasswordVerifier;
use vstd::prelude::*;

use crate::errors::ApiError;
use crate::errors::AuthError;

verus! {

/// Whether argon2 verification of this password against this PHC-encoded
/// hash succeeds.
pub uninterp spec fn argon2_verifies(password: Seq<char>, phc: Seq<char>) -> bool;

/// Whether this text parses as a PHC-encoded password hash.
pub uninterp spec fn phc_parses(phc: Seq<char>) -> bool;

/// How one password check against one stored hash ended.
#[derive(Debug, Clone, Copy, PartialEq, Eq, Structural)]
pub enum PasswordCheck {
    /// The password matches the hash.
    Matched,
    /// The hash parsed, but the password does not match it.
    Mismatched,
    /// The stored hash could not be used (malformed, or an unsupported
    /// algorithm or parameter set).
    Unusable,
}

/// Relies on argon2's Argon2::verify_password on a PHC string: it parses the
/// hash, recomputes the hash of the password with the parameters and salt
/// it carries, and compares in constant time; `PasswordInvalid` is the only
/// mismatch error.
#[verifier::external_body]
fn argon2_verify(password: &str, phc: &str) -> (r: PasswordCheck)
    ensures
        (r is Matched) <==> argon2_verifies(password@, phc@),
        (r is Matched) ==> phc_parses(phc@),
        (r is Mismatched) ==> phc_parses(phc@),
        !phc_parses(phc@) ==> (r is Unusable),
{
    match argon2::Argon2::default().verify_password(password.as_bytes(), phc) {
        Ok(()) => PasswordCheck::Matched,
        Err(argon2::password_hash::Error::PasswordInvalid) => PasswordCheck::Mismatched,
        Err(_) => PasswordCheck::Unusable,
    }
}

/// Relies on argon2's Argon2::hash_password: hashes with a freshly drawn
/// random salt and the default parameters, producing a PHC string that
/// parses and verifies against the password it was computed from.
#[verifier::external_body]
fn argon2_hash(password: &str) -> (r: Result<String, ()>)
    ensures
        r matches Ok(h) ==> phc_parses(h@) && argon2_verifies(password@, h@),
{
    argon2::Argon2::default().hash_password(password.as_bytes()).map(|h| h.to_string()).map_err(
        |_| (),
    )
}

/// Process-wide password-checking context: holds the dummy hash that absent
/// accounts are checked against, fixed at startup.
pub struct PasswordContext {
    dummy_hash: String,
}

impl PasswordContext {
    /// The dummy hash is usable, so the dummy check runs the same work as a
    /// real one.
    pub closed spec fn wf(&self) -> bool {
        phc_parses(self.dummy_hash@)
    }

    /// Builds the context by hashing a fixed throwaway password once.
    pub fn new() -> (r: Result<PasswordContext, ApiError>)
        ensures
            r matches Ok(ctx) ==> ctx.wf(),
    {
        match argon2_hash("dummy password") {
            Ok(h) => Ok(PasswordContext { dummy_hash: h }),
            Err(_) => Err(ApiError::Internal),
        }
    }
}

/// Hashes a password for storage with a fresh random salt; the result
/// verifies against the password it came from.
pub fn hash_password(password: &str) -> (r: Result<String, ApiError>)
    ensures
        r matches Ok(h) ==> phc_parses(h@) && argon2_verifies(password@, h@),
        r matches Err(e) ==> e == ApiError::Internal,
{
    match argon2_hash(password) {
        Ok(h) => Ok(h),
        Err(_) => Err(ApiError::Internal),
    }
}

/// Checks a password against a stored hash, or against the dummy hash when
/// no account exists. Succeeds exactly when a stored hash is present and the
/// password matches it; an absent account always fails with the same error
/// as a wrong password.
pub fn verify_password(ctx: &PasswordContext, password: &str, stored_hash: Option<&str>) -> (r:
    Result<(), ApiError>)
    requires
        ctx.wf(),
    ensures
        (r is Ok) <==> (stored_hash matches Some(h) && argon2_verifies(password@, h@)),
        stored_hash is None ==> r == Err::<(), ApiError>(
            ApiError::Auth(AuthError::InvalidCredentials),
        ),
        (stored_hash matches Some(h) && !phc_parses(h@)) ==> r == Err::<(), ApiError>(
            ApiError::PasswordHash,
        ),
        r is Err ==> (r == Err::<(), ApiError>(ApiError::Auth(AuthError::InvalidCredentials)) || r
            == Err::<(), ApiError>(ApiError::PasswordHash)),
{
    match stored_hash {
        Some(h) => match argon2_verify(password, h) {
            PasswordCheck::Matched => Ok(()),
            PasswordCheck::Mismatched => Err(ApiError::Auth(AuthError::InvalidCredentials)),
            PasswordCheck::Unusable => Err(ApiError::PasswordHash),
        },
        None => {
            // Burn the same hashing work as a real check, then fail exactly
            // as a wrong password does.
            let _ = argon2_verify(password, ctx.dummy_hash.as_str());
            Err(ApiError::Auth(AuthError::InvalidCredentials))
        },
    }
}

} // verus!
