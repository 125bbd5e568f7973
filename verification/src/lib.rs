//! Authentication and token-lifecycle core.
//!
//! The library issues, verifies, and gates session credentials for
//! registered users: credential verification at login, signed-token
//! issuance, store-backed token validity checks (expiry/revocation),
//! access-token renewal from a refresh token, and request-time identity
//! extraction from an inbound bearer credential.
//!
//! Persistent state is modelled by two in-memory stores with explicit
//! invariants: a credential store for users and their roles, and a token
//! store for issued token rows.  Signing, password hashing, id and clock
//! reads go through small trusted wrappers around outside crates; every
//! decision made on their results is verified.

pub mod errors;
pub mod types;
pub mod user;
pub mod trusted;
pub mod credential_store;
pub mod token_store;
pub mod jwt;
pub mod auth;
pub mod laws;
