//! User records and the request/response shapes of the external interface.

use vstd::prelude::*;
use crate::types::UserSource;
use crate::types::RoleType;

verus! {

/// A registered user.  The password field holds the slow salted hash,
/// never a plaintext password; it is present whenever `source` is
/// `SYSTEM`.  Email is unique across a credential store and immutable
/// after creation.
#[derive(Debug)]
pub struct User {
    pub id: String,
    pub name: String,
    pub email: String,
    pub is_enabled: Option<bool>,
    pub is_account_non_expired: Option<bool>,
    pub is_account_non_locked: Option<bool>,
    pub password: Option<String>,
    pub image_url: Option<String>,
    pub created_at: Option<i64>,
    pub updated_at: Option<i64>,
    pub source: UserSource,
}

impl Clone for User {
    fn clone(&self) -> (r: Self)
        ensures
            r == *self,
    {
        User {
            id: self.id.clone(),
            name: self.name.clone(),
            email: self.email.clone(),
            is_enabled: clone_flag(&self.is_enabled),
            is_account_non_expired: clone_flag(&self.is_account_non_expired),
            is_account_non_locked: clone_flag(&self.is_account_non_locked),
            password: clone_opt_string(&self.password),
            image_url: clone_opt_string(&self.image_url),
            created_at: clone_stamp(&self.created_at),
            updated_at: clone_stamp(&self.updated_at),
            source: self.source,
        }
    }
}

/// Copy of an optional flag.
pub fn clone_flag(o: &Option<bool>) -> (r: Option<bool>)
    ensures
        r == *o,
{
    match o {
        Some(b) => Some(*b),
        None => None,
    }
}

/// Copy of an optional timestamp.
pub fn clone_stamp(o: &Option<i64>) -> (r: Option<i64>)
    ensures
        r == *o,
{
    match o {
        Some(t) => Some(*t),
        None => None,
    }
}

/// Copy of an optional string.
pub fn clone_opt_string(o: &Option<String>) -> (r: Option<String>)
    ensures
        r == *o,
{
    match o {
        Some(s) => Some(s.clone()),
        None => None,
    }
}

/// Signup input.
#[derive(Debug)]
pub struct UserRequest {
    pub name: String,
    pub email: String,
    pub password: String,
    pub confirm_password: String,
}

/// Public projection of a user: the password hash is never part of it.
#[derive(Debug)]
pub struct UserResponse {
    pub id: String,
    pub name: String,
    pub email: String,
    pub role: RoleType,
}

impl Clone for UserResponse {
    fn clone(&self) -> (r: Self)
        ensures
            r == *self,
    {
        UserResponse {
            id: self.id.clone(),
            name: self.name.clone(),
            email: self.email.clone(),
            role: self.role,
        }
    }
}

/// Login input.
#[derive(Debug)]
pub struct LoginRequest {
    pub email: String,
    pub password: String,
}

/// Login output: the freshly issued session pair and the public
/// projection of the authenticated user.
#[derive(Debug)]
pub struct LoginResponse {
    pub access_token: String,
    pub refresh_token: String,
    pub user: UserResponse,
}

/// Result of authenticating a caller, by password or by token: the
/// session response mirrors the login shape, and the full user record
/// carries the resolved identity.
#[derive(Debug)]
pub struct AuthenticationResult {
    pub session: LoginResponse,
    pub user: User,
}

/// Output of renewing an access token from a refresh token.
#[derive(Debug)]
pub struct RefreshTokenResponse {
    pub access_token: String,
}

} // verus!
