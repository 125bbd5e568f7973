use auth_core::credential_store::CredentialStore;
use auth_core::credential_store::Role;
use auth_core::errors::ApplicationError;
use auth_core::errors::AuthError;
use auth_core::errors::StoreError;
use auth_core::errors::TokenError;
use auth_core::jwt::Claim;
use auth_core::jwt::TokenConfig;
use auth_core::jwt::TokenType;
use auth_core::jwt::extract_subject;
use auth_core::jwt::generate_token;
use auth_core::jwt::get_token_claim;
use auth_core::jwt::now_seconds;
use auth_core::jwt::verify_token;
use auth_core::token_store::Token;
use auth_core::token_store::TokenStore;
use auth_core::token_store::persist_access_tokens;
use auth_core::token_store::persist_refresh_and_access_tokens;
use auth_core::types::RoleType;
use auth_core::types::UserSource;
use auth_core::user::User;
use auth_core::jwt::UserTokenResponse;

fn config() -> TokenConfig {
    TokenConfig {
        secret: "unit-test-signing-secret".to_string(),
        access_expiration: 3600,
        refresh_expiration: 86400,
    }
}

fn user(id: &str, email: &str) -> User {
    User {
        id: id.to_string(),
        name: "N".to_string(),
        email: email.to_string(),
        is_enabled: Some(false),
        is_account_non_expired: Some(true),
        is_account_non_locked: Some(true),
        password: Some("$2b$12$abcdefghijklmnopqrstuv".to_string()),
        image_url: None,
        created_at: None,
        updated_at: None,
        source: UserSource::SYSTEM,
    }
}

fn store_with_user(id: &str, email: &str) -> CredentialStore {
    let mut credentials = CredentialStore::new();
    credentials.users.push(user(id, email));
    credentials.roles.push(Role {
        id: "r-1".to_string(),
        user_id: id.to_string(),
        role: RoleType::USER,
    });
    credentials
}

#[test]
fn claim_carries_subject_kind_and_configured_expiry() {
    let c = config();
    let access: Claim = get_token_claim("a@x.com", TokenType::ACCESS, &c, 1_000);
    assert_eq!(access.sub, "a@x.com");
    assert_eq!(access.exp, 4_600);
    assert_eq!(access.token_type, TokenType::ACCESS);
    let refresh = get_token_claim("a@x.com", TokenType::REFRESH, &c, 1_000);
    assert_eq!(refresh.exp, 87_400);
    assert_eq!(refresh.token_type, TokenType::REFRESH);
}

#[test]
fn mint_then_verify_returns_original_subject() {
    let c = config();
    let credentials = store_with_user("u-1", "a@x.com");
    let mut tokens = TokenStore::new();
    let claim = get_token_claim("a@x.com", TokenType::ACCESS, &c, 1_000);
    let minted = generate_token(&claim, &c.secret).unwrap();
    persist_access_tokens(&mut tokens, &credentials, &minted, "a@x.com", 1_000).unwrap();
    let subject = verify_token(&minted, TokenType::ACCESS, &tokens, &c.secret, 1_500).unwrap();
    assert_eq!(subject, "a@x.com");
}

#[test]
fn extract_subject_round_trip_and_wrong_secret() {
    let c = config();
    let claim = get_token_claim("a@x.com", TokenType::ACCESS, &c, 1_000);
    let minted = generate_token(&claim, &c.secret).unwrap();
    assert_eq!(extract_subject(&minted, &c.secret).unwrap(), "a@x.com");
    let r = extract_subject(&minted, "another-secret");
    assert_eq!(r.unwrap_err(), AuthError::InvalidCredentials);
}

#[test]
fn verify_reports_each_failure_kind() {
    let c = config();
    let credentials = store_with_user("u-1", "a@x.com");
    let mut tokens = TokenStore::new();
    let claim = get_token_claim("a@x.com", TokenType::ACCESS, &c, 1_000);
    let minted = generate_token(&claim, &c.secret).unwrap();

    // Bad signature: checked with a different secret.
    assert_eq!(
        verify_token(&minted, TokenType::ACCESS, &tokens, "another-secret", 1_500).unwrap_err(),
        TokenError::InvalidSignature
    );
    // Payload expiry elapsed (exp is 4600).
    assert_eq!(
        verify_token(&minted, TokenType::ACCESS, &tokens, &c.secret, 5_000).unwrap_err(),
        TokenError::Expired
    );
    // Kind mismatch comes before the store lookup.
    assert_eq!(
        verify_token(&minted, TokenType::REFRESH, &tokens, &c.secret, 1_500).unwrap_err(),
        TokenError::KindMismatch
    );
    // No stored row for the value.
    assert_eq!(
        verify_token(&minted, TokenType::ACCESS, &tokens, &c.secret, 1_500).unwrap_err(),
        TokenError::NotFound
    );
    // Stored row flagged expired, although the payload expiry holds.
    persist_access_tokens(&mut tokens, &credentials, &minted, "a@x.com", 1_000).unwrap();
    tokens.tokens[0].is_expired = Some(true);
    assert_eq!(
        verify_token(&minted, TokenType::ACCESS, &tokens, &c.secret, 1_500).unwrap_err(),
        TokenError::Expired
    );
    // Stored row flagged revoked.
    tokens.tokens[0].is_expired = Some(false);
    tokens.tokens[0].is_revoked = Some(true);
    assert_eq!(
        verify_token(&minted, TokenType::ACCESS, &tokens, &c.secret, 1_500).unwrap_err(),
        TokenError::Revoked
    );
}

#[test]
fn duplicate_token_value_is_refused() {
    let credentials = store_with_user("u-1", "a@x.com");
    let mut tokens = TokenStore::new();
    persist_access_tokens(&mut tokens, &credentials, "same-value", "a@x.com", 100).unwrap();
    // The opaque value is the store's key: a second row for it is refused.
    let r = persist_access_tokens(&mut tokens, &credentials, "same-value", "a@x.com", 200);
    assert_eq!(r.unwrap_err(), StoreError::Storage);
    assert_eq!(tokens.tokens.len(), 1);
    persist_access_tokens(&mut tokens, &credentials, "other-value", "a@x.com", 200).unwrap();
    assert_eq!(tokens.tokens.len(), 2);
}

#[test]
fn equal_claims_sign_to_the_same_token() {
    let c = config();
    let claim_a = get_token_claim("a@x.com", TokenType::ACCESS, &c, 1_000);
    let claim_b = get_token_claim("a@x.com", TokenType::ACCESS, &c, 1_000);
    // Signing is deterministic given identical claims and secret.
    assert_eq!(
        generate_token(&claim_a, &c.secret).unwrap(),
        generate_token(&claim_b, &c.secret).unwrap()
    );
}

#[test]
fn revoked_value_stays_dead_as_rows_are_added() {
    let c = config();
    let credentials = store_with_user("u-1", "a@x.com");
    let mut tokens = TokenStore::new();
    let claim = get_token_claim("a@x.com", TokenType::REFRESH, &c, 1_000);
    let minted = generate_token(&claim, &c.secret).unwrap();
    persist_access_tokens(&mut tokens, &credentials, &minted, "a@x.com", 1_000).unwrap();
    tokens.tokens[0].is_revoked = Some(true);
    assert_eq!(
        verify_token(&minted, TokenType::REFRESH, &tokens, &c.secret, 1_500).unwrap_err(),
        TokenError::Revoked
    );
    // Later inserts cannot resurrect the value: its one row is the key.
    persist_access_tokens(&mut tokens, &credentials, "another-value", "a@x.com", 1_600).unwrap();
    assert_eq!(
        verify_token(&minted, TokenType::REFRESH, &tokens, &c.secret, 1_700).unwrap_err(),
        TokenError::Revoked
    );
}

#[test]
fn persist_pair_is_both_or_neither() {
    let credentials = store_with_user("u-1", "a@x.com");
    let mut tokens = TokenStore::new();
    let pair = UserTokenResponse { access: "acc".to_string(), refresh: "ref".to_string() };
    // Unknown email: nothing is persisted.
    let r = persist_refresh_and_access_tokens(&mut tokens, &credentials, &pair, "b@x.com", 100);
    assert_eq!(r.unwrap_err(), StoreError::NotFound);
    assert_eq!(tokens.tokens.len(), 0);
    // Known email: exactly the two rows appear, owned by the user.
    let saved =
        persist_refresh_and_access_tokens(&mut tokens, &credentials, &pair, "a@x.com", 100)
            .unwrap();
    assert_eq!(saved.access, "acc");
    assert_eq!(saved.refresh, "ref");
    assert_eq!(tokens.tokens.len(), 2);
    assert_eq!(tokens.tokens[0].token.as_deref(), Some("acc"));
    assert_eq!(tokens.tokens[1].token.as_deref(), Some("ref"));
    assert!(tokens.tokens.iter().all(|t| t.user_id == "u-1"
        && t.is_expired == Some(false)
        && t.is_revoked == Some(false)
        && t.created_at == Some(100)));
}

#[test]
fn store_lookups_and_projection() {
    let credentials = store_with_user("u-1", "a@x.com");
    let found = credentials.get_user_by_email("a@x.com").unwrap();
    assert_eq!(found.id, "u-1");
    assert_eq!(
        credentials.get_user_by_email("b@x.com").unwrap_err(),
        StoreError::NotFound
    );
    let role = credentials.get_token_by_user_id("u-1").unwrap();
    assert_eq!(role.role, RoleType::USER);
    assert_eq!(
        credentials.get_token_by_user_id("u-2").unwrap_err(),
        StoreError::NotFound
    );
    let projection = found.to_response(&credentials).unwrap();
    assert_eq!(projection.id, "u-1");
    assert_eq!(projection.email, "a@x.com");
    assert_eq!(projection.role, RoleType::USER);
    // A user whose role row is missing cannot be projected.
    let orphan = user("u-9", "c@x.com");
    assert_eq!(orphan.to_response(&credentials).unwrap_err(), StoreError::NotFound);
}

#[test]
fn duplicate_user_id_is_storage_error() {
    let mut credentials = store_with_user("u-1", "a@x.com");
    let colliding = user("u-1", "b@x.com");
    let r = credentials.save_new_user_and_allocate_a_role(&colliding);
    assert_eq!(r.unwrap_err(), StoreError::Storage);
    assert_eq!(credentials.users.len(), 1);
    assert_eq!(credentials.roles.len(), 1);
}

#[test]
fn kind_and_role_and_source_names() {
    assert_eq!(TokenType::ACCESS.name(), "ACCESS");
    assert_eq!(TokenType::REFRESH.name(), "REFRESH");
    assert_eq!(RoleType::USER.name(), "USER");
    assert_eq!(RoleType::APPLICATION.name(), "APPLICATION");
    assert_eq!(RoleType::parse("USER"), RoleType::USER);
    assert_eq!(RoleType::parse("APPLICATION"), RoleType::APPLICATION);
    assert_eq!(UserSource::SYSTEM.name(), "SYSTEM");
    assert_eq!(UserSource::GOOGLE.name(), "GOOGLE");
    assert_eq!(UserSource::parse("SYSTEM"), UserSource::SYSTEM);
    assert_eq!(UserSource::parse("GOOGLE"), UserSource::GOOGLE);
}

#[test]
fn error_records_carry_original_wording() {
    let e = ApplicationError::new("JWT Token error", "JWT Token is revoked");
    assert_eq!(e.error, "JWT Token error");
    assert_eq!(e.description, "JWT Token is revoked");
    let g = ApplicationError::generic("Cannot fetch user data please try again");
    assert_eq!(g.error, "An error occurred");
    let invalid = AuthError::InvalidCredentials.to_application_error();
    assert_eq!(invalid.error, "Authentication Error");
    assert_eq!(invalid.description, "Invalid Credentials.");
    let mismatch = AuthError::ValidationError.to_application_error();
    assert_eq!(mismatch.error, "Password Miss match");
}

#[test]
fn clock_reads_a_positive_epoch() {
    let now = now_seconds();
    assert!(now > 1_600_000_000);
}

#[test]
fn token_row_clone_is_exact() {
    let row = Token {
        id: "t-1".to_string(),
        is_expired: Some(false),
        is_revoked: None,
        user_id: "u-1".to_string(),
        token: Some("value".to_string()),
        created_at: Some(7),
    };
    let copy = row.clone();
    assert_eq!(copy.id, "t-1");
    assert_eq!(copy.is_expired, Some(false));
    assert_eq!(copy.is_revoked, None);
    assert_eq!(copy.token.as_deref(), Some("value"));
    assert_eq!(copy.created_at, Some(7));
}

#[test]
fn absent_row_flags_count_as_clear() {
    let c = config();
    let mut tokens = TokenStore::new();
    let claim = get_token_claim("a@x.com", TokenType::ACCESS, &c, 1_000);
    let minted = generate_token(&claim, &c.secret).unwrap();
    tokens.tokens.push(Token {
        id: "t-1".to_string(),
        is_expired: None,
        is_revoked: None,
        user_id: "u-1".to_string(),
        token: Some(minted.clone()),
        created_at: None,
    });
    let subject = verify_token(&minted, TokenType::ACCESS, &tokens, &c.secret, 1_500).unwrap();
    assert_eq!(subject, "a@x.com");
}
