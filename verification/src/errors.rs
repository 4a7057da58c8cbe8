//! Error taxonomy of the authentication core.
//!
//! Credential and token failures carry minimal detail; the HTTP status a
//! client sees is a pure function of the error value.

use vstd::prelude::*;

verus! {

/// Authentication and session failures surfaced by the core.
#[derive(Debug, Clone, Copy, PartialEq, Eq, Structural)]
pub enum AuthError {
    /// No access cookie was presented.
    MissingJwtCookie,
    /// The access token failed signature or expiry checks.
    InvalidJwt,
    /// No session cookie was presented.
    MissingSessionCookie,
    /// The session cookie did not decode to a well-formed token.
    InvalidSessionToken,
    /// No session row matches the presented token.
    SessionNotFound,
    /// The session was rotated or re-owned since the caller last saw it.
    SessionMismatch,
    /// The session's rolling or forced window elapsed; credentials must be re-proven.
    NeedReauth,
    /// Deliberate terminal signal after a logout, so callers clear cookies.
    DidLogout,
    /// Email or password (or the dummy check for unknown accounts) failed.
    InvalidCredentials,
    /// Two-factor authentication is enabled and no code was submitted.
    TwoFactorRequired,
    /// The submitted two-factor code matched neither a TOTP code nor a recovery code.
    TwoFactorInvalid,
}

/// Two-factor enrollment and lifecycle failures.
#[derive(Debug, Clone, PartialEq, Eq, Structural)]
pub enum TwoFactorError {
    /// Two-factor authentication is not enabled for this user.
    NotEnabled,
    /// Two-factor authentication is already enabled for this user.
    AlreadyEnabled,
    /// Two-factor enrollment has not been started.
    NotStarted,
    /// Another concurrent request changed the two-factor state first.
    ConcurrentRequestRaced,
    /// A cryptographic step failed; details stay server-side.
    Internal,
}

/// Failures while decoding an opaque token from its transport encoding.
#[derive(Debug, Clone, Copy, PartialEq, Eq, Structural)]
pub enum TokenDecodeError {
    /// The text is not valid unpadded URL-safe base64.
    Base64,
    /// The decoded byte string has the wrong length.
    InvalidLength { expected: usize, actual: usize },
}

/// Top-level error of the core, as handed to the transport layer.
#[derive(Debug, Clone, PartialEq, Eq, Structural)]
pub enum ApiError {
    /// An input field failed validation.
    Validation(ValidationError),
    /// Password hashing or verification failed on a malformed stored hash.
    PasswordHash,
    /// A required row does not exist.
    NotFound,
    /// A unique column (email, nickname) already holds the value.
    Conflict,
    /// An authentication failure.
    Auth(AuthError),
    /// A two-factor failure.
    TwoFa(TwoFactorError),
    /// An internal failure (storage capacity, cryptography); details stay
    /// server-side.
    Internal,
}

/// Validation failures for registration inputs.
#[derive(Debug, Clone, Copy, PartialEq, Eq, Structural)]
pub enum ValidationError {
    /// Leading or trailing whitespace.
    Trim,
    /// Too short or too long.
    Length,
    /// Contains whitespace.
    Whitespace,
    /// Contains a character outside the accepted alphabet.
    InvalidChars,
}

impl ApiError {
    /// The HTTP status class a client sees for this error; credential and
    /// token failures map to 401 with minimal detail, conflicts to 409,
    /// validation failures to 400, internal failures to 500.
    pub open spec fn spec_status_code(&self) -> u16 {
        match self {
            ApiError::Validation(_) => 400,
            ApiError::PasswordHash => 500,
            ApiError::NotFound => 404,
            ApiError::Conflict => 409,
            ApiError::Auth(e) => match e {
                AuthError::DidLogout => 200,
                _ => 401,
            },
            ApiError::TwoFa(e) => match e {
                TwoFactorError::Internal => 500,
                _ => 400,
            },
            ApiError::Internal => 500,
        }
    }

    /// Computes the status code a response for this error carries.
    pub fn status_code(&self) -> (r: u16)
        ensures
            r == self.spec_status_code(),
    {
        match self {
            ApiError::Validation(_) => 400,
            ApiError::PasswordHash => 500,
            ApiError::NotFound => 404,
            ApiError::Conflict => 409,
            ApiError::Auth(e) => match e {
                AuthError::DidLogout => 200,
                _ => 401,
            },
            ApiError::TwoFa(e) => match e {
                TwoFactorError::Internal => 500,
                _ => 400,
            },
            ApiError::Internal => 500,
        }
    }
}

} // verus!
