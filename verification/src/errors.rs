//! Error taxonomy of the core.
//!
//! `ApplicationError` is the user-visible error record: a short error
//! label and a description.  Internal causes are translated to the
//! coarse-grained kinds of `AuthError` before they cross the core
//! boundary; callers never see raw storage or cryptographic detail.

use vstd::prelude::*;

verus! {

/// User-visible error record: a label and a description.
#[derive(Debug)]
pub struct ApplicationError {
    pub error: String,
    pub description: String,
}

impl ApplicationError {
    pub fn new(error: &str, description: &str) -> (r: ApplicationError)
        ensures
            r.error@ == error@,
            r.description@ == description@,
    {
        ApplicationError { error: error.to_owned(), description: description.to_owned() }
    }

    pub fn generic(description: &str) -> (r: ApplicationError)
        ensures
            r.error@ == "An error occurred"@,
            r.description@ == description@,
    {
        ApplicationError { error: "An error occurred".to_owned(), description: description.to_owned() }
    }
}

/// Failure kinds of the stores.
#[derive(Debug, Clone, Copy, PartialEq, Eq, Structural)]
pub enum StoreError {
    /// No record matches the key.
    NotFound,
    /// A user with the same email already exists.
    DuplicateEmail,
    /// Any other persistence fault (e.g. an id collision).
    Storage,
}

/// Failure kinds of token verification.
#[derive(Debug, Clone, Copy, PartialEq, Eq, Structural)]
pub enum TokenError {
    /// The compact token could not be decoded with the given secret.
    InvalidSignature,
    /// The payload expiry has elapsed, or the stored row is flagged expired.
    Expired,
    /// The embedded kind disagrees with the expected kind.
    KindMismatch,
    /// The stored row is flagged revoked.
    Revoked,
    /// No stored row holds the token value.
    NotFound,
}

/// Coarse-grained failure kinds of the authentication services.
#[derive(Debug, Clone, Copy, PartialEq, Eq, Structural)]
pub enum AuthError {
    /// A request field is rejected (e.g. the passwords do not match).
    ValidationError,
    /// Credential verification failed; returned identically whether the
    /// cause is an unknown email, a wrong password, or a bad, expired,
    /// revoked or mismatched token, to avoid leaking which check failed.
    InvalidCredentials,
    /// An underlying persistence failure, surfaced without detail.
    StorageError,
    /// A token could not be signed.
    SigningError,
    /// A password could not be hashed or checked.
    HashingError,
}

impl AuthError {
    /// The user-visible record for this failure kind, with the wording
    /// the transport layer reports.
    pub fn to_application_error(self) -> (r: ApplicationError)
        ensures
            self == AuthError::ValidationError ==> r.error@ == "Password Miss match"@
                && r.description@ == "Passwords must match"@,
            self == AuthError::InvalidCredentials ==> r.error@ == "Authentication Error"@
                && r.description@ == "Invalid Credentials."@,
            self == AuthError::StorageError ==> r.error@ == "An error occurred"@ && r.description@
                == "Cannot fetch user data please try again"@,
            self == AuthError::SigningError ==> r.error@ == "JWT Error"@ && r.description@
                == "Token signing failed"@,
            self == AuthError::HashingError ==> r.error@ == "Hashing Password Error"@
                && r.description@ == "Password hashing failed"@,
    {
        match self {
            AuthError::ValidationError => ApplicationError::new(
                "Password Miss match",
                "Passwords must match",
            ),
            AuthError::InvalidCredentials => ApplicationError::new(
                "Authentication Error",
                "Invalid Credentials.",
            ),
            AuthError::StorageError => ApplicationError::generic(
                "Cannot fetch user data please try again",
            ),
            AuthError::SigningError => ApplicationError::new("JWT Error", "Token signing failed"),
            AuthError::HashingError => ApplicationError::new(
                "Hashing Password Error",
                "Password hashing failed",
            ),
        }
    }
}

} // verus!
