//! Token service: mints compact signed tokens, validates them, and gates
//! their use against the stored rows.
//!
//! A claim carries the subject (the user's email), the expiry epoch, and
//! the token kind.  Verification checks the signature, then the
//! payload's own expiry, then the expected kind, and only then consults
//! the store: a missing row, or a row flagged expired or revoked, kills
//! the token even while its payload expiry has not elapsed — stored
//! state is authoritative.

use vstd::prelude::*;
use crate::credential_store::CredentialStore;
use crate::credential_store::email_taken;
use crate::errors::AuthError;
use crate::errors::TokenError;
use crate::token_store::Token;
use crate::token_store::TokenStore;
use crate::token_store::inserted_row;
use crate::token_store::latest_match;
use crate::token_store::persist_access_tokens;
use crate::token_store::persist_refresh_and_access_tokens;
use crate::token_store::rec_expired;
use crate::token_store::rec_revoked;
use crate::trusted::current_epoch_seconds;
use crate::token_store::value_stored;
use crate::trusted::jwt_claims_of;
use crate::trusted::jwt_decode;
use crate::trusted::jwt_encode;
use crate::trusted::jwt_of;
use crate::types::str_eq;

verus! {

/// Token kind: short-lived API-use tokens, or longer-lived tokens used
/// solely to mint new access tokens.
#[derive(Debug, Clone, Copy, PartialEq, Eq, Structural)]
pub enum TokenType {
    ACCESS,
    REFRESH,
}

/// The canonical name of a token kind, as embedded in the signed payload.
pub open spec fn kind_name(t: TokenType) -> Seq<char> {
    match t {
        TokenType::ACCESS => "ACCESS"@,
        TokenType::REFRESH => "REFRESH"@,
    }
}

impl TokenType {
    /// The canonical name of this kind.
    pub fn name(&self) -> (r: String)
        ensures
            r@ == kind_name(*self),
    {
        match self {
            TokenType::ACCESS => "ACCESS".to_owned(),
            TokenType::REFRESH => "REFRESH".to_owned(),
        }
    }
}

/// Signed payload: subject, expiry epoch in seconds, and kind.  Minted
/// at issuance and never mutated.
#[derive(Debug)]
pub struct Claim {
    pub exp: u64,
    pub sub: String,
    pub token_type: TokenType,
}

/// A freshly issued access/refresh pair.
#[derive(Debug)]
pub struct UserTokenResponse {
    pub access: String,
    pub refresh: String,
}

/// Configuration the core consumes: the symmetric signing secret and the
/// per-kind time-to-live in seconds.  Loading it is out of scope.
#[derive(Debug)]
pub struct TokenConfig {
    pub secret: String,
    pub access_expiration: u64,
    pub refresh_expiration: u64,
}

/// The time-to-live a configuration grants to a token kind.
pub open spec fn ttl_for(config: TokenConfig, kind: TokenType) -> u64 {
    match kind {
        TokenType::ACCESS => config.access_expiration,
        TokenType::REFRESH => config.refresh_expiration,
    }
}

/// Builds the claim for a fresh token: the subject, the kind, and an
/// expiry of `now` plus the kind's configured time-to-live.
pub fn get_token_claim(username: &str, token_type: TokenType, config: &TokenConfig, now: u64) -> (r:
    Claim)
    requires
        now + ttl_for(*config, token_type) <= u64::MAX,
    ensures
        r.sub@ == username@,
        r.exp == now + ttl_for(*config, token_type),
        r.token_type == token_type,
{
    let ttl = match token_type {
        TokenType::ACCESS => config.access_expiration,
        TokenType::REFRESH => config.refresh_expiration,
    };
    Claim { exp: now + ttl, sub: username.to_owned(), token_type }
}

/// Signs a claim into a compact token with the symmetric secret.  The
/// result is the deterministic encoding of the claim — two calls on
/// equal claims and secret return the same string — and it decodes
/// back, with the same secret, to exactly the claim's subject, expiry
/// and kind.  Signing never fails for a symmetric secret.
pub fn generate_token(claims: &Claim, secret: &str) -> (r: Result<String, AuthError>)
    ensures
        r is Ok,
        r matches Ok(t) ==> t@ == jwt_of(
            claims.sub@,
            claims.exp,
            kind_name(claims.token_type),
            secret@,
        ) && jwt_claims_of(t@, secret@) == Some(
            (claims.sub@, claims.exp, kind_name(claims.token_type)),
        ),
{
    let kind = claims.token_type.name();
    match jwt_encode(claims.sub.as_str(), claims.exp, kind.as_str(), secret) {
        Ok(t) => Ok(t),
        Err(_) => Err(AuthError::SigningError),
    }
}

/// Decodes a token with the secret and returns its subject, without
/// consulting the store.  Succeeds if and only if the signature and
/// shape check out.
pub fn extract_subject(token: &str, secret: &str) -> (r: Result<String, AuthError>)
    ensures
        r matches Ok(s) ==> jwt_claims_of(token@, secret@) matches Some(c) && c.0 == s@,
        r is Ok <==> jwt_claims_of(token@, secret@) is Some,
        r matches Err(e) ==> e == AuthError::InvalidCredentials,
{
    match jwt_decode(token, secret) {
        Ok(c) => Ok(c.0),
        Err(_) => Err(AuthError::InvalidCredentials),
    }
}

/// The verdict of verification, as a function of the token's decoded
/// claims, the expected kind, the stored rows, the token's literal
/// value, and the time of the check: a bad signature, then an elapsed
/// payload expiry, then a kind mismatch reject the token before the
/// store is consulted; then the stored row is authoritative — missing,
/// flagged expired, or flagged revoked each kill the token — and only
/// when every check passes is the subject returned.
pub open spec fn verify_spec(
    claims: Option<(Seq<char>, u64, Seq<char>)>,
    expected: TokenType,
    toks: Seq<Token>,
    token: Seq<char>,
    now: u64,
) -> Result<Seq<char>, TokenError> {
    match claims {
        None => Err(TokenError::InvalidSignature),
        Some(c) => if c.1 <= now {
            Err(TokenError::Expired)
        } else if c.2 != kind_name(expected) {
            Err(TokenError::KindMismatch)
        } else {
            match latest_match(toks, token) {
                None => Err(TokenError::NotFound),
                Some(rec) => if rec_expired(rec) {
                    Err(TokenError::Expired)
                } else if rec_revoked(rec) {
                    Err(TokenError::Revoked)
                } else {
                    Ok(c.0)
                },
            }
        },
    }
}

/// Verifies a token end to end and returns its subject: signature,
/// payload expiry, expected kind, and the stored row's flags, exactly as
/// `verify_spec` renders the verdict.
pub fn verify_token(
    token: &str,
    token_type: TokenType,
    store: &TokenStore,
    secret: &str,
    now: u64,
) -> (r: Result<String, TokenError>)
    ensures
        r matches Ok(s) ==> verify_spec(
            jwt_claims_of(token@, secret@),
            token_type,
            store.tokens@,
            token@,
            now,
        ) == Ok::<Seq<char>, TokenError>(s@),
        r matches Err(e) ==> verify_spec(
            jwt_claims_of(token@, secret@),
            token_type,
            store.tokens@,
            token@,
            now,
        ) == Err::<Seq<char>, TokenError>(e),
{
    let decoded = match jwt_decode(token, secret) {
        Ok(c) => c,
        Err(_) => {
            return Err(TokenError::InvalidSignature);
        },
    };
    if decoded.1 <= now {
        return Err(TokenError::Expired);
    }
    let expected = token_type.name();
    if !str_eq(decoded.2.as_str(), expected.as_str()) {
        return Err(TokenError::KindMismatch);
    }
    let rec = match store.get_token_by_token(token) {
        Ok(rec) => rec,
        Err(_) => {
            return Err(TokenError::NotFound);
        },
    };
    if rec.is_expired.unwrap_or(false) {
        return Err(TokenError::Expired);
    }
    if rec.is_revoked.unwrap_or(false) {
        return Err(TokenError::Revoked);
    }
    Ok(decoded.0)
}

/// That one call issued a session pair for `email` at `now`: the two
/// new rows hold the access and refresh values, both owned by the user
/// registered under `email`, unexpired and unrevoked, and each value
/// decodes to the subject, the configured expiry, and its kind.
pub open spec fn session_issued(
    old_toks: Seq<Token>,
    new_toks: Seq<Token>,
    credentials: CredentialStore,
    email: Seq<char>,
    access: Seq<char>,
    refresh: Seq<char>,
    config: TokenConfig,
    now: u64,
) -> bool {
    &&& jwt_claims_of(access, config.secret@) == Some(
        (email, (now + config.access_expiration) as u64, kind_name(TokenType::ACCESS)),
    )
    &&& jwt_claims_of(refresh, config.secret@) == Some(
        (email, (now + config.refresh_expiration) as u64, kind_name(TokenType::REFRESH)),
    )
    &&& new_toks.len() == old_toks.len() + 2
    &&& new_toks.drop_last().drop_last() == old_toks
    &&& exists|i: int|
        0 <= i < credentials.users@.len() && #[trigger] credentials.users@[i].email@ == email
            && inserted_row(
            new_toks[new_toks.len() - 2],
            access,
            credentials.users@[i].id@,
            now,
        ) && inserted_row(new_toks.last(), refresh, credentials.users@[i].id@, now)
}

/// That one call issued a single access token for `email` at `now`.
pub open spec fn access_issued(
    old_toks: Seq<Token>,
    new_toks: Seq<Token>,
    credentials: CredentialStore,
    email: Seq<char>,
    access: Seq<char>,
    config: TokenConfig,
    now: u64,
) -> bool {
    &&& jwt_claims_of(access, config.secret@) == Some(
        (email, (now + config.access_expiration) as u64, kind_name(TokenType::ACCESS)),
    )
    &&& new_toks.len() == old_toks.len() + 1
    &&& new_toks.drop_last() == old_toks
    &&& exists|i: int|
        0 <= i < credentials.users@.len() && #[trigger] credentials.users@[i].email@ == email
            && inserted_row(new_toks.last(), access, credentials.users@[i].id@, now)
}

/// The access value a session issued for `email` at `now` mints.
pub open spec fn minted_access(email: Seq<char>, config: TokenConfig, now: u64) -> Seq<char> {
    jwt_of(
        email,
        (now + config.access_expiration) as u64,
        kind_name(TokenType::ACCESS),
        config.secret@,
    )
}

/// The refresh value a session issued for `email` at `now` mints.
pub open spec fn minted_refresh(email: Seq<char>, config: TokenConfig, now: u64) -> Seq<char> {
    jwt_of(
        email,
        (now + config.refresh_expiration) as u64,
        kind_name(TokenType::REFRESH),
        config.secret@,
    )
}

/// Mints one access and one refresh token for the subject and persists
/// both as new rows in one call — both or neither.  Succeeds exactly
/// when a user is registered under `email` and neither minted value is
/// already a stored key; every failure is `StorageError`.
pub fn generate_persisted_user_token(
    email: &str,
    credentials: &CredentialStore,
    store: &mut TokenStore,
    config: &TokenConfig,
    now: u64,
) -> (r: Result<UserTokenResponse, AuthError>)
    requires
        credentials.wf(),
        old(store).wf(),
        now + config.access_expiration <= u64::MAX,
        now + config.refresh_expiration <= u64::MAX,
    ensures
        final(store).wf(),
        r matches Err(e) ==> *final(store) == *old(store) && e == AuthError::StorageError,
        r is Ok <==> (email_taken(credentials.users@, email@) && !value_stored(
            old(store).tokens@,
            minted_access(email@, *config, now),
        ) && !value_stored(old(store).tokens@, minted_refresh(email@, *config, now))),
        r matches Ok(out) ==> out.access@ == minted_access(email@, *config, now) && out.refresh@
            == minted_refresh(email@, *config, now) && session_issued(
            old(store).tokens@,
            final(store).tokens@,
            *credentials,
            email@,
            out.access@,
            out.refresh@,
            *config,
            now,
        ),
{
    let access_claim = get_token_claim(email, TokenType::ACCESS, config, now);
    let refresh_claim = get_token_claim(email, TokenType::REFRESH, config, now);
    let access = match generate_token(&access_claim, config.secret.as_str()) {
        Ok(t) => t,
        Err(_) => {
            return Err(AuthError::StorageError);
        },
    };
    let refresh = match generate_token(&refresh_claim, config.secret.as_str()) {
        Ok(t) => t,
        Err(_) => {
            return Err(AuthError::StorageError);
        },
    };
    proof {
        reveal_strlit("ACCESS");
        reveal_strlit("REFRESH");
        assert(kind_name(TokenType::ACCESS).len() == 6);
        assert(kind_name(TokenType::REFRESH).len() == 7);
        assert(access@ != refresh@);
    }
    let pair = UserTokenResponse { access, refresh };
    match persist_refresh_and_access_tokens(store, credentials, &pair, email, now) {
        Ok(out) => Ok(out),
        Err(_) => Err(AuthError::StorageError),
    }
}

/// Verifies `token` as a refresh token and, on success, mints and
/// persists a new access token for the same subject.  The refresh token
/// itself is not invalidated: this renewal is deliberately repeatable
/// while the refresh token's stored row stays unexpired and unrevoked.
/// Every verification failure surfaces as the one `InvalidCredentials`;
/// an unregistered subject or a minted value that is already a stored
/// key surfaces as `StorageError`.
pub fn generate_persisted_access_token(
    token: &str,
    credentials: &CredentialStore,
    store: &mut TokenStore,
    config: &TokenConfig,
    now: u64,
) -> (r: Result<String, AuthError>)
    requires
        credentials.wf(),
        old(store).wf(),
        now + config.access_expiration <= u64::MAX,
    ensures
        final(store).wf(),
        r matches Err(_) ==> *final(store) == *old(store),
        r == Err::<String, AuthError>(AuthError::InvalidCredentials) <==> verify_spec(
            jwt_claims_of(token@, config.secret@),
            TokenType::REFRESH,
            old(store).tokens@,
            token@,
            now,
        ) is Err,
        r matches Err(e) ==> (e == AuthError::InvalidCredentials || e == AuthError::StorageError),
        verify_spec(
            jwt_claims_of(token@, config.secret@),
            TokenType::REFRESH,
            old(store).tokens@,
            token@,
            now,
        ) matches Ok(sub) ==> {
            &&& r is Ok <==> (email_taken(credentials.users@, sub) && !value_stored(
                old(store).tokens@,
                minted_access(sub, *config, now),
            ))
            &&& r matches Ok(acc) ==> acc@ == minted_access(sub, *config, now) && access_issued(
                old(store).tokens@,
                final(store).tokens@,
                *credentials,
                sub,
                acc@,
                *config,
                now,
            )
        },
{
    let subject = match verify_token(token, TokenType::REFRESH, store, config.secret.as_str(), now) {
        Ok(s) => s,
        Err(_) => {
            return Err(AuthError::InvalidCredentials);
        },
    };
    let claim = get_token_claim(subject.as_str(), TokenType::ACCESS, config, now);
    let access = match generate_token(&claim, config.secret.as_str()) {
        Ok(t) => t,
        Err(_) => {
            return Err(AuthError::StorageError);
        },
    };
    match persist_access_tokens(store, credentials, access.as_str(), subject.as_str(), now) {
        Ok(out) => Ok(out),
        Err(_) => Err(AuthError::StorageError),
    }
}

/// The current epoch time in whole seconds, clamped at zero.  A clock
/// reading promises nothing; callers thread the value through the
/// time-dependent contracts.
pub fn now_seconds() -> u64 {
    let t = current_epoch_seconds();
    if t < 0 {
        0
    } else {
        t as u64
    }
}

} // verus!
