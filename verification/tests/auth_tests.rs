use auth_core::auth::authenticate_user;
use auth_core::auth::extract_bearer_token;
use auth_core::auth::login;
use auth_core::auth::refresh_token;
use auth_core::auth::signup;
use auth_core::credential_store::CredentialStore;
use auth_core::errors::AuthError;
use auth_core::jwt::TokenConfig;
use auth_core::token_store::TokenStore;
use auth_core::types::RoleType;
use auth_core::types::UserSource;
use auth_core::user::LoginRequest;
use auth_core::user::User;
use auth_core::user::UserRequest;

fn config() -> TokenConfig {
    TokenConfig {
        secret: "unit-test-signing-secret".to_string(),
        access_expiration: 3600,
        refresh_expiration: 86400,
    }
}

fn request(name: &str, email: &str, password: &str, confirm: &str) -> UserRequest {
    UserRequest {
        name: name.to_string(),
        email: email.to_string(),
        password: password.to_string(),
        confirm_password: confirm.to_string(),
    }
}

#[test]
fn signup_assigns_user_role_and_hides_password() {
    let mut credentials = CredentialStore::new();
    let response = signup(&request("A", "a@x.com", "p1", "p1"), &mut credentials).unwrap();
    assert_eq!(response.role, RoleType::USER);
    assert_eq!(response.name, "A");
    assert_eq!(response.email, "a@x.com");
    // The public projection never carries the password, in any rendering.
    let rendered = format!("{:?}", response);
    assert!(!rendered.contains("p1"));
    // The stored record holds a hash, not the plaintext.
    let stored = credentials.get_user_by_email("a@x.com").unwrap();
    let hash = stored.password.clone().unwrap();
    assert_ne!(hash, "p1");
    assert!(bcrypt::verify("p1", &hash).unwrap());
}

#[test]
fn signup_password_mismatch_is_validation_error() {
    let mut credentials = CredentialStore::new();
    let r = signup(&request("A", "a@x.com", "p1", "p2"), &mut credentials);
    assert_eq!(r.unwrap_err(), AuthError::ValidationError);
    assert_eq!(credentials.users.len(), 0);
    assert_eq!(credentials.roles.len(), 0);
}

#[test]
fn signup_mismatch_beats_duplicate_email() {
    let mut credentials = CredentialStore::new();
    signup(&request("A", "a@x.com", "p1", "p1"), &mut credentials).unwrap();
    // The mismatch is checked before any lookup: same error although the
    // email is already taken.
    let r = signup(&request("B", "a@x.com", "q1", "q2"), &mut credentials);
    assert_eq!(r.unwrap_err(), AuthError::ValidationError);
}

#[test]
fn signup_duplicate_email_is_storage_error() {
    let mut credentials = CredentialStore::new();
    signup(&request("A", "a@x.com", "p1", "p1"), &mut credentials).unwrap();
    let r = signup(&request("B", "a@x.com", "q1", "q1"), &mut credentials);
    assert_eq!(r.unwrap_err(), AuthError::StorageError);
    assert_eq!(credentials.users.len(), 1);
    assert_eq!(credentials.roles.len(), 1);
}

#[test]
fn login_unknown_user_is_invalid_credentials() {
    let credentials = CredentialStore::new();
    let mut tokens = TokenStore::new();
    let r = login(
        &LoginRequest { email: "a@x.com".to_string(), password: "secret1".to_string() },
        &credentials,
        &mut tokens,
        &config(),
        1_000_000,
    );
    assert_eq!(r.unwrap_err(), AuthError::InvalidCredentials);
    assert_eq!(tokens.tokens.len(), 0);
}

#[test]
fn login_wrong_password_is_invalid_credentials() {
    let mut credentials = CredentialStore::new();
    let mut tokens = TokenStore::new();
    signup(&request("A", "a@x.com", "p1", "p1"), &mut credentials).unwrap();
    let r = login(
        &LoginRequest { email: "a@x.com".to_string(), password: "wrong".to_string() },
        &credentials,
        &mut tokens,
        &config(),
        1_000_000,
    );
    assert_eq!(r.unwrap_err(), AuthError::InvalidCredentials);
    assert_eq!(tokens.tokens.len(), 0);
}

#[test]
fn signup_then_login_returns_tokens_and_user_role() {
    let mut credentials = CredentialStore::new();
    let mut tokens = TokenStore::new();
    signup(&request("A", "a@x.com", "p1", "p1"), &mut credentials).unwrap();
    let session = login(
        &LoginRequest { email: "a@x.com".to_string(), password: "p1".to_string() },
        &credentials,
        &mut tokens,
        &config(),
        1_000_000,
    )
    .unwrap();
    assert!(!session.access_token.is_empty());
    assert!(!session.refresh_token.is_empty());
    assert_eq!(session.user.role, RoleType::USER);
    assert_eq!(session.user.email, "a@x.com");
    assert_eq!(session.user.name, "A");
    // One access and one refresh row were persisted, unexpired, unrevoked.
    assert_eq!(tokens.tokens.len(), 2);
    assert!(tokens.tokens.iter().all(|t| t.is_expired == Some(false) && t.is_revoked == Some(false)));
}

#[test]
fn authenticate_by_token_mirrors_login() {
    let mut credentials = CredentialStore::new();
    let mut tokens = TokenStore::new();
    signup(&request("A", "a@x.com", "p1", "p1"), &mut credentials).unwrap();
    let session = login(
        &LoginRequest { email: "a@x.com".to_string(), password: "p1".to_string() },
        &credentials,
        &mut tokens,
        &config(),
        1_000_000,
    )
    .unwrap();
    // A later clock reading: re-issuing at the very same second would
    // mint the identical strings and hit the store's value key.
    let result = authenticate_user(
        Some(session.access_token.as_str()),
        None,
        &credentials,
        &mut tokens,
        &config(),
        1_000_050,
    )
    .unwrap();
    assert_eq!(result.user.email, "a@x.com");
    assert_eq!(result.session.user.email, "a@x.com");
    assert_eq!(result.session.user.role, RoleType::USER);
    assert!(!result.session.access_token.is_empty());
    // A fresh pair was issued on top of the login pair.
    assert_eq!(tokens.tokens.len(), 4);
}

#[test]
fn authenticate_with_neither_token_nor_details_fails() {
    let credentials = CredentialStore::new();
    let mut tokens = TokenStore::new();
    let r = authenticate_user(None, None, &credentials, &mut tokens, &config(), 1_000_000);
    assert_eq!(r.unwrap_err(), AuthError::InvalidCredentials);
}

#[test]
fn refresh_is_repeatable_while_row_is_live() {
    let mut credentials = CredentialStore::new();
    let mut tokens = TokenStore::new();
    signup(&request("A", "a@x.com", "p1", "p1"), &mut credentials).unwrap();
    let session = login(
        &LoginRequest { email: "a@x.com".to_string(), password: "p1".to_string() },
        &credentials,
        &mut tokens,
        &config(),
        1_000_000,
    )
    .unwrap();
    let first = refresh_token(
        session.refresh_token.as_str(),
        &credentials,
        &mut tokens,
        &config(),
        1_000_100,
    )
    .unwrap();
    assert!(!first.access_token.is_empty());
    // No one-time-use enforcement: the same refresh token works again.
    let second = refresh_token(
        session.refresh_token.as_str(),
        &credentials,
        &mut tokens,
        &config(),
        1_000_200,
    )
    .unwrap();
    assert!(!second.access_token.is_empty());
    assert_eq!(tokens.tokens.len(), 4);
}

#[test]
fn refresh_failures_are_externally_uniform() {
    let mut credentials = CredentialStore::new();
    let mut tokens = TokenStore::new();
    signup(&request("A", "a@x.com", "p1", "p1"), &mut credentials).unwrap();
    let session = login(
        &LoginRequest { email: "a@x.com".to_string(), password: "p1".to_string() },
        &credentials,
        &mut tokens,
        &config(),
        1_000_000,
    )
    .unwrap();

    // Unknown token value.
    let unknown = refresh_token("no.such.token", &credentials, &mut tokens, &config(), 1_000_100)
        .unwrap_err();
    // Correct signature but wrong kind: an access token handed to refresh.
    let wrong_kind = refresh_token(
        session.access_token.as_str(),
        &credentials,
        &mut tokens,
        &config(),
        1_000_100,
    )
    .unwrap_err();
    // Correct signature and kind, but the stored row is revoked.
    for row in tokens.tokens.iter_mut() {
        if row.token.as_deref() == Some(session.refresh_token.as_str()) {
            row.is_revoked = Some(true);
        }
    }
    let revoked = refresh_token(
        session.refresh_token.as_str(),
        &credentials,
        &mut tokens,
        &config(),
        1_000_100,
    )
    .unwrap_err();

    assert_eq!(unknown, AuthError::InvalidCredentials);
    assert_eq!(wrong_kind, AuthError::InvalidCredentials);
    assert_eq!(revoked, AuthError::InvalidCredentials);
}

#[test]
fn revoked_refresh_row_fails_uniformly() {
    let mut credentials = CredentialStore::new();
    let mut tokens = TokenStore::new();
    signup(&request("A", "a@x.com", "p1", "p1"), &mut credentials).unwrap();
    let session = login(
        &LoginRequest { email: "a@x.com".to_string(), password: "p1".to_string() },
        &credentials,
        &mut tokens,
        &config(),
        1_000_000,
    )
    .unwrap();
    for row in tokens.tokens.iter_mut() {
        row.is_revoked = Some(true);
    }
    let r = refresh_token(
        session.refresh_token.as_str(),
        &credentials,
        &mut tokens,
        &config(),
        1_000_100,
    );
    // Not a distinguishable "revoked" answer: the uniform credential error.
    assert_eq!(r.unwrap_err(), AuthError::InvalidCredentials);
}

#[test]
fn bearer_extraction_accepts_exactly_bearer_shape() {
    assert_eq!(extract_bearer_token("Bearer abc").as_deref(), Some("abc"));
    assert_eq!(extract_bearer_token("Bearer x").as_deref(), Some("x"));
    assert_eq!(extract_bearer_token("Bearer "), None);
    assert_eq!(extract_bearer_token("bearer abc"), None);
    assert_eq!(extract_bearer_token("Token abcdef"), None);
    assert_eq!(extract_bearer_token(""), None);
    assert_eq!(extract_bearer_token("Bearer"), None);
}

#[test]
fn signup_stores_a_disabled_system_user() {
    let mut credentials = CredentialStore::new();
    signup(&request("A", "a@x.com", "p1", "p1"), &mut credentials).unwrap();
    let stored = credentials.get_user_by_email("a@x.com").unwrap();
    assert_eq!(stored.is_enabled, Some(false));
    assert_eq!(stored.is_account_non_expired, Some(true));
    assert_eq!(stored.is_account_non_locked, Some(true));
    assert_eq!(stored.source, UserSource::SYSTEM);
    assert_eq!(stored.image_url, None);
    assert!(stored.password.is_some());
}

#[test]
fn reissuing_in_the_same_second_hits_the_value_key() {
    let mut credentials = CredentialStore::new();
    let mut tokens = TokenStore::new();
    signup(&request("A", "a@x.com", "p1", "p1"), &mut credentials).unwrap();
    let request_body =
        LoginRequest { email: "a@x.com".to_string(), password: "p1".to_string() };
    login(&request_body, &credentials, &mut tokens, &config(), 1_000_000).unwrap();
    // Deterministic signing re-mints the identical strings, and the
    // store keys rows by value: the second issuance is refused whole.
    let r = login(&request_body, &credentials, &mut tokens, &config(), 1_000_000);
    assert_eq!(r.unwrap_err(), AuthError::StorageError);
    assert_eq!(tokens.tokens.len(), 2);
    // One second later the claims differ, so fresh values are minted.
    login(&request_body, &credentials, &mut tokens, &config(), 1_000_001).unwrap();
    assert_eq!(tokens.tokens.len(), 4);
}

#[test]
fn login_without_stored_hash_is_hashing_error() {
    let mut credentials = CredentialStore::new();
    let mut tokens = TokenStore::new();
    credentials.users.push(User {
        id: "u-1".to_string(),
        name: "G".to_string(),
        email: "g@x.com".to_string(),
        is_enabled: Some(true),
        is_account_non_expired: Some(true),
        is_account_non_locked: Some(true),
        password: None,
        image_url: None,
        created_at: None,
        updated_at: None,
        source: UserSource::GOOGLE,
    });
    let r = login(
        &LoginRequest { email: "g@x.com".to_string(), password: "p1".to_string() },
        &credentials,
        &mut tokens,
        &config(),
        1_000_000,
    );
    assert_eq!(r.unwrap_err(), AuthError::HashingError);
}

#[test]
fn login_with_malformed_stored_hash_is_hashing_error() {
    let mut credentials = CredentialStore::new();
    let mut tokens = TokenStore::new();
    credentials.users.push(User {
        id: "u-1".to_string(),
        name: "M".to_string(),
        email: "m@x.com".to_string(),
        is_enabled: Some(true),
        is_account_non_expired: Some(true),
        is_account_non_locked: Some(true),
        password: Some("not-a-bcrypt-hash".to_string()),
        image_url: None,
        created_at: None,
        updated_at: None,
        source: UserSource::SYSTEM,
    });
    let r = login(
        &LoginRequest { email: "m@x.com".to_string(), password: "p1".to_string() },
        &credentials,
        &mut tokens,
        &config(),
        1_000_000,
    );
    assert_eq!(r.unwrap_err(), AuthError::HashingError);
}
