//! Authentication service: signup, login, token-based authentication,
//! refresh, and bearer extraction, composing the two stores and the
//! token service.
//!
//! Credential failures — unknown email, wrong password, and any token
//! verification failure — all surface as the one `InvalidCredentials`,
//! so a caller cannot tell which check failed.

use vstd::prelude::*;
use vstd::string::StrSliceExecFns;
use crate::credential_store::CredentialStore;
use crate::credential_store::email_taken;
use crate::credential_store::id_taken;
use crate::credential_store::role_assigned;
use crate::errors::AuthError;
use crate::jwt::TokenConfig;
use crate::jwt::TokenType;
use crate::jwt::access_issued;
use crate::jwt::generate_persisted_access_token;
use crate::jwt::generate_persisted_user_token;
use crate::jwt::minted_access;
use crate::jwt::minted_refresh;
use crate::jwt::session_issued;
use crate::jwt::verify_spec;
use crate::jwt::verify_token;
use crate::token_store::TokenStore;
use crate::token_store::value_stored;
use crate::trusted::bcrypt_hash;
use crate::trusted::bcrypt_hash_shaped;
use crate::trusted::bcrypt_matches;
use crate::trusted::bcrypt_verify;
use crate::trusted::fresh_uuid;
use crate::trusted::jwt_claims_of;
use crate::types::RoleType;
use crate::types::UserSource;
use crate::types::str_eq;
use crate::user::AuthenticationResult;
use crate::user::LoginRequest;
use crate::user::LoginResponse;
use crate::user::RefreshTokenResponse;
use crate::user::User;
use crate::user::UserRequest;
use crate::user::UserResponse;

verus! {

/// The stored user carrying this email — meaningful when the email is
/// taken, and unique in a well-formed store.
pub open spec fn user_with_email(users: Seq<User>, email: Seq<char>) -> User {
    users[choose|i: int| 0 <= i < users.len() && #[trigger] users[i].email@ == email]
}

/// In a well-formed store, any stored user carrying `email` is the one
/// `user_with_email` picks.
pub proof fn lemma_unique_email(credentials: CredentialStore, u: User, email: Seq<char>)
    requires
        credentials.wf(),
        exists|i: int| 0 <= i < credentials.users@.len() && #[trigger] credentials.users@[i] == u,
        u.email@ == email,
    ensures
        email_taken(credentials.users@, email),
        user_with_email(credentials.users@, email) == u,
{
    let users = credentials.users@;
    let i = choose|i: int| 0 <= i < users.len() && #[trigger] users[i] == u;
    assert(users[i].email@ == email);
    let k = choose|i: int| 0 <= i < users.len() && #[trigger] users[i].email@ == email;
    assert(0 <= k < users.len() && users[k].email@ == email);
    if i < k {
        assert(users[i].email@ != users[k].email@);
    } else if k < i {
        assert(users[k].email@ != users[i].email@);
    }
}

/// What a user record created by signup looks like: named and addressed
/// as requested, disabled until activation, not expired, not locked,
/// system-provisioned, no image, and carrying a hash that matches the
/// requested password — never the password itself.
pub open spec fn signed_up_user(u: User, request: UserRequest) -> bool {
    &&& u.name@ == request.name@
    &&& u.email@ == request.email@
    &&& u.is_enabled == Some(false)
    &&& u.is_account_non_expired == Some(true)
    &&& u.is_account_non_locked == Some(true)
    &&& u.source == UserSource::SYSTEM
    &&& u.password matches Some(h) && bcrypt_matches(request.password@, h@)
        && bcrypt_hash_shaped(h@)
    &&& u.image_url is None
}

/// Creates a new user with a hashed password and a `USER` role, both
/// persisted in one call.  The password mismatch check comes before any
/// lookup, so a mismatch fails with `ValidationError` whether or not the
/// email is taken; a taken email surfaces as `StorageError`.  The
/// response is the public projection — the hash is never part of it.
pub fn signup(user_request: &UserRequest, credentials: &mut CredentialStore) -> (r: Result<
    UserResponse,
    AuthError,
>)
    requires
        old(credentials).wf(),
    ensures
        final(credentials).wf(),
        r == Err::<UserResponse, AuthError>(AuthError::ValidationError) <==> user_request.password@
            != user_request.confirm_password@,
        r matches Err(_) ==> *final(credentials) == *old(credentials),
        r matches Err(e) ==> (e == AuthError::ValidationError || e == AuthError::HashingError || e
            == AuthError::StorageError),
        (user_request.password@ == user_request.confirm_password@ && email_taken(
            old(credentials).users@,
            user_request.email@,
        )) ==> (r == Err::<UserResponse, AuthError>(AuthError::StorageError) || r == Err::<
            UserResponse,
            AuthError,
        >(AuthError::HashingError)),
        r matches Ok(resp) ==> {
            &&& user_request.password@ == user_request.confirm_password@
            &&& !email_taken(old(credentials).users@, user_request.email@)
            &&& resp.role == RoleType::USER
            &&& resp.name@ == user_request.name@
            &&& resp.email@ == user_request.email@
            &&& final(credentials).users@.len() == old(credentials).users@.len() + 1
            &&& final(credentials).users@.drop_last() == old(credentials).users@
            &&& signed_up_user(final(credentials).users@.last(), *user_request)
            &&& resp.id@ == final(credentials).users@.last().id@
            &&& final(credentials).roles@.len() == old(credentials).roles@.len() + 1
            &&& final(credentials).roles@.drop_last() == old(credentials).roles@
            &&& final(credentials).roles@.last().user_id@ == final(credentials).users@.last().id@
            &&& final(credentials).roles@.last().role == RoleType::USER
        },
{
    if !str_eq(user_request.password.as_str(), user_request.confirm_password.as_str()) {
        return Err(AuthError::ValidationError);
    }
    let hash = match bcrypt_hash(user_request.password.as_str()) {
        Ok(h) => h,
        Err(_) => {
            return Err(AuthError::HashingError);
        },
    };
    let user = User {
        id: fresh_uuid(),
        name: user_request.name.clone(),
        email: user_request.email.clone(),
        is_enabled: Some(false),
        is_account_non_expired: Some(true),
        is_account_non_locked: Some(true),
        password: Some(hash),
        image_url: None,
        created_at: None,
        updated_at: None,
        source: UserSource::SYSTEM,
    };
    match credentials.save_new_user_and_allocate_a_role(&user) {
        Ok(resp) => {
            proof {
                assert(final(credentials).users@.drop_last() =~= old(credentials).users@);
            }
            Ok(resp)
        },
        Err(_) => Err(AuthError::StorageError),
    }
}

/// Resolves the user registered under `email`, issues a fresh session
/// pair for it, and returns the session next to the full user record.
/// An unknown email is exactly `InvalidCredentials`; success is owed
/// whenever the email is registered and the two minted values are not
/// already stored keys, and the only other failure is `StorageError`
/// on such a key conflict.
pub fn generate_user_session(
    email: &str,
    credentials: &CredentialStore,
    tokens: &mut TokenStore,
    config: &TokenConfig,
    now: u64,
) -> (r: Result<AuthenticationResult, AuthError>)
    requires
        credentials.wf(),
        old(tokens).wf(),
        now + config.access_expiration <= u64::MAX,
        now + config.refresh_expiration <= u64::MAX,
    ensures
        final(tokens).wf(),
        r matches Err(_) ==> *final(tokens) == *old(tokens),
        r == Err::<AuthenticationResult, AuthError>(AuthError::InvalidCredentials) <==> !email_taken(
            credentials.users@,
            email@,
        ),
        r matches Err(e) ==> (e == AuthError::InvalidCredentials || e == AuthError::StorageError),
        r is Ok <==> (email_taken(credentials.users@, email@) && !value_stored(
            old(tokens).tokens@,
            minted_access(email@, *config, now),
        ) && !value_stored(old(tokens).tokens@, minted_refresh(email@, *config, now))),
        r matches Ok(res) ==> {
            &&& res.user == user_with_email(credentials.users@, email@)
            &&& res.user.email@ == email@
            &&& res.session.user.id@ == res.user.id@
            &&& res.session.user.name@ == res.user.name@
            &&& res.session.user.email@ == email@
            &&& res.session.access_token@ == minted_access(email@, *config, now)
            &&& res.session.refresh_token@ == minted_refresh(email@, *config, now)
            &&& exists|i: int|
                0 <= i < credentials.roles@.len() && #[trigger] credentials.roles@[i].user_id@
                    == res.user.id@ && credentials.roles@[i].role == res.session.user.role
            &&& session_issued(
                old(tokens).tokens@,
                final(tokens).tokens@,
                *credentials,
                email@,
                res.session.access_token@,
                res.session.refresh_token@,
                *config,
                now,
            )
        },
{
    let user = match credentials.get_user_by_email(email) {
        Ok(u) => u,
        Err(_) => {
            return Err(AuthError::InvalidCredentials);
        },
    };
    proof {
        lemma_unique_email(*credentials, user, email@);
    }
    let response = match user.to_response(credentials) {
        Ok(resp) => resp,
        Err(_) => {
            proof {
                let k = choose|k: int|
                    0 <= k < credentials.users@.len() && #[trigger] credentials.users@[k].id@
                        == user.id@;
                assert(role_assigned(credentials.roles@, credentials.users@[k].id@));
            }
            return Err(AuthError::StorageError);
        },
    };
    let pair = match generate_persisted_user_token(email, credentials, tokens, config, now) {
        Ok(p) => p,
        Err(_) => {
            return Err(AuthError::StorageError);
        },
    };
    Ok(
        AuthenticationResult {
            session: LoginResponse {
                access_token: pair.access,
                refresh_token: pair.refresh,
                user: response,
            },
            user,
        },
    )
}

/// Authenticates a caller either by an access token or by email and
/// password, and issues a fresh session either way, so token-based and
/// password-based authentication return the same shape.  Every
/// credential failure — bad, expired, revoked or mismatched token,
/// unknown email, wrong password — is the one `InvalidCredentials`, and
/// success is owed whenever the credentials check out and the minted
/// values are not already stored keys.
pub fn authenticate_user(
    token: Option<&str>,
    details: Option<&LoginRequest>,
    credentials: &CredentialStore,
    tokens: &mut TokenStore,
    config: &TokenConfig,
    now: u64,
) -> (r: Result<AuthenticationResult, AuthError>)
    requires
        credentials.wf(),
        old(tokens).wf(),
        now + config.access_expiration <= u64::MAX,
        now + config.refresh_expiration <= u64::MAX,
    ensures
        final(tokens).wf(),
        r matches Err(_) ==> *final(tokens) == *old(tokens),
        token matches Some(t) ==> ({
            let verdict = verify_spec(
                jwt_claims_of(t@, config.secret@),
                TokenType::ACCESS,
                old(tokens).tokens@,
                t@,
                now,
            );
            &&& verdict is Err ==> r == Err::<AuthenticationResult, AuthError>(
                AuthError::InvalidCredentials,
            )
            &&& verdict matches Ok(sub) ==> {
                &&& r == Err::<AuthenticationResult, AuthError>(AuthError::InvalidCredentials)
                    <==> !email_taken(credentials.users@, sub)
                &&& r matches Err(e) ==> (e == AuthError::InvalidCredentials || e
                    == AuthError::StorageError)
                &&& r is Ok <==> (email_taken(credentials.users@, sub) && !value_stored(
                    old(tokens).tokens@,
                    minted_access(sub, *config, now),
                ) && !value_stored(old(tokens).tokens@, minted_refresh(sub, *config, now)))
                &&& r matches Ok(res) ==> {
                    &&& res.user == user_with_email(credentials.users@, sub)
                    &&& res.user.email@ == sub
                    &&& res.session.user.id@ == res.user.id@
                    &&& res.session.user.email@ == sub
                    &&& session_issued(
                        old(tokens).tokens@,
                        final(tokens).tokens@,
                        *credentials,
                        sub,
                        res.session.access_token@,
                        res.session.refresh_token@,
                        *config,
                        now,
                    )
                }
            }
        }),
        token is None ==> (details matches Some(d) ==> {
            &&& !email_taken(credentials.users@, d.email@) ==> r == Err::<
                AuthenticationResult,
                AuthError,
            >(AuthError::InvalidCredentials)
            &&& email_taken(credentials.users@, d.email@) ==> ({
                let u = user_with_email(credentials.users@, d.email@);
                &&& u.password is None ==> r == Err::<AuthenticationResult, AuthError>(
                    AuthError::HashingError,
                )
                &&& u.password matches Some(h) ==> {
                    &&& !bcrypt_hash_shaped(h@) ==> r == Err::<AuthenticationResult, AuthError>(
                        AuthError::HashingError,
                    )
                    &&& (bcrypt_hash_shaped(h@) && !bcrypt_matches(d.password@, h@)) ==> r == Err::<
                        AuthenticationResult,
                        AuthError,
                    >(AuthError::InvalidCredentials)
                    &&& (bcrypt_hash_shaped(h@) && bcrypt_matches(d.password@, h@)) ==> {
                        &&& r is Ok <==> (!value_stored(
                            old(tokens).tokens@,
                            minted_access(d.email@, *config, now),
                        ) && !value_stored(
                            old(tokens).tokens@,
                            minted_refresh(d.email@, *config, now),
                        ))
                        &&& r matches Err(e) ==> e == AuthError::StorageError
                    }
                    &&& r matches Ok(res) ==> {
                        &&& bcrypt_matches(d.password@, h@)
                        &&& res.user == u
                        &&& res.session.user.id@ == u.id@
                        &&& res.session.user.name@ == u.name@
                        &&& res.session.user.email@ == d.email@
                        &&& res.session.access_token@ == minted_access(d.email@, *config, now)
                        &&& res.session.refresh_token@ == minted_refresh(d.email@, *config, now)
                        &&& exists|i: int|
                            0 <= i < credentials.roles@.len()
                                && #[trigger] credentials.roles@[i].user_id@ == u.id@
                                && credentials.roles@[i].role == res.session.user.role
                        &&& session_issued(
                            old(tokens).tokens@,
                            final(tokens).tokens@,
                            *credentials,
                            d.email@,
                            res.session.access_token@,
                            res.session.refresh_token@,
                            *config,
                            now,
                        )
                    }
                }
            })
        }),
        token is None && details is None ==> r == Err::<AuthenticationResult, AuthError>(
            AuthError::InvalidCredentials,
        ),
{
    match token {
        Some(t) => {
            let subject = match verify_token(t, TokenType::ACCESS, tokens, config.secret.as_str(), now) {
                Ok(s) => s,
                Err(_) => {
                    return Err(AuthError::InvalidCredentials);
                },
            };
            match generate_user_session(subject.as_str(), credentials, tokens, config, now) {
                Ok(res) => Ok(res),
                Err(e) => Err(e),
            }
        },
        None => {
            match details {
                Some(d) => {
                    let user = match credentials.get_user_by_email(d.email.as_str()) {
                        Ok(u) => u,
                        Err(_) => {
                            return Err(AuthError::InvalidCredentials);
                        },
                    };
                    proof {
                        lemma_unique_email(*credentials, user, d.email@);
                    }
                    let accepted = match &user.password {
                        Some(h) => {
                            match bcrypt_verify(d.password.as_str(), h.as_str()) {
                                Ok(b) => b,
                                Err(_) => {
                                    return Err(AuthError::HashingError);
                                },
                            }
                        },
                        None => {
                            return Err(AuthError::HashingError);
                        },
                    };
                    if !accepted {
                        return Err(AuthError::InvalidCredentials);
                    }
                    let pair = match generate_persisted_user_token(
                        d.email.as_str(),
                        credentials,
                        tokens,
                        config,
                        now,
                    ) {
                        Ok(p) => p,
                        Err(_) => {
                            return Err(AuthError::StorageError);
                        },
                    };
                    let response = match user.to_response(credentials) {
                        Ok(resp) => resp,
                        Err(_) => {
                            proof {
                                let k = choose|k: int|
                                    0 <= k < credentials.users@.len()
                                        && #[trigger] credentials.users@[k].id@ == user.id@;
                                assert(role_assigned(
                                    credentials.roles@,
                                    credentials.users@[k].id@,
                                ));
                            }
                            return Err(AuthError::StorageError);
                        },
                    };
                    Ok(
                        AuthenticationResult {
                            session: LoginResponse {
                                access_token: pair.access,
                                refresh_token: pair.refresh,
                                user: response,
                            },
                            user,
                        },
                    )
                },
                None => Err(AuthError::InvalidCredentials),
            }
        },
    }
}

/// Verifies email and password and returns the fresh session: the
/// issued access and refresh tokens and the public projection of the
/// user.  Unknown email and wrong password fail with exactly the same
/// `InvalidCredentials`, so login leaks no user-existence oracle, and
/// success is owed on a correct password whenever the minted values are
/// not already stored keys.
pub fn login(
    login_request: &LoginRequest,
    credentials: &CredentialStore,
    tokens: &mut TokenStore,
    config: &TokenConfig,
    now: u64,
) -> (r: Result<LoginResponse, AuthError>)
    requires
        credentials.wf(),
        old(tokens).wf(),
        now + config.access_expiration <= u64::MAX,
        now + config.refresh_expiration <= u64::MAX,
    ensures
        final(tokens).wf(),
        r matches Err(_) ==> *final(tokens) == *old(tokens),
        !email_taken(credentials.users@, login_request.email@) ==> r == Err::<
            LoginResponse,
            AuthError,
        >(AuthError::InvalidCredentials),
        email_taken(credentials.users@, login_request.email@) ==> ({
            let u = user_with_email(credentials.users@, login_request.email@);
            &&& u.password is None ==> r == Err::<LoginResponse, AuthError>(AuthError::HashingError)
            &&& u.password matches Some(h) ==> {
                &&& !bcrypt_hash_shaped(h@) ==> r == Err::<LoginResponse, AuthError>(
                    AuthError::HashingError,
                )
                &&& (bcrypt_hash_shaped(h@) && !bcrypt_matches(login_request.password@, h@)) ==> r
                    == Err::<LoginResponse, AuthError>(AuthError::InvalidCredentials)
                &&& (bcrypt_hash_shaped(h@) && bcrypt_matches(login_request.password@, h@)) ==> {
                    &&& r is Ok <==> (!value_stored(
                        old(tokens).tokens@,
                        minted_access(login_request.email@, *config, now),
                    ) && !value_stored(
                        old(tokens).tokens@,
                        minted_refresh(login_request.email@, *config, now),
                    ))
                    &&& r matches Err(e) ==> e == AuthError::StorageError
                }
                &&& r matches Ok(resp) ==> {
                    &&& bcrypt_matches(login_request.password@, h@)
                    &&& resp.user.id@ == u.id@
                    &&& resp.user.name@ == u.name@
                    &&& resp.user.email@ == login_request.email@
                    &&& resp.access_token@ == minted_access(login_request.email@, *config, now)
                    &&& resp.refresh_token@ == minted_refresh(login_request.email@, *config, now)
                    &&& exists|i: int|
                        0 <= i < credentials.roles@.len()
                            && #[trigger] credentials.roles@[i].user_id@ == u.id@
                            && credentials.roles@[i].role == resp.user.role
                    &&& session_issued(
                        old(tokens).tokens@,
                        final(tokens).tokens@,
                        *credentials,
                        login_request.email@,
                        resp.access_token@,
                        resp.refresh_token@,
                        *config,
                        now,
                    )
                }
            }
        }),
{
    match authenticate_user(None, Some(login_request), credentials, tokens, config, now) {
        Ok(res) => Ok(res.session),
        Err(e) => Err(e),
    }
}

/// Renews an access token from a refresh token.  Every verification
/// failure — unknown value, wrong kind, bad signature, expired or
/// revoked row — is exactly the one `InvalidCredentials`; success is
/// owed on a verifying refresh token whose subject is registered and
/// whose minted access value is not already a stored key, and the only
/// other failure is `StorageError`.
pub fn refresh_token(
    token: &str,
    credentials: &CredentialStore,
    tokens: &mut TokenStore,
    config: &TokenConfig,
    now: u64,
) -> (r: Result<RefreshTokenResponse, AuthError>)
    requires
        credentials.wf(),
        old(tokens).wf(),
        now + config.access_expiration <= u64::MAX,
    ensures
        final(tokens).wf(),
        r matches Err(_) ==> *final(tokens) == *old(tokens),
        r == Err::<RefreshTokenResponse, AuthError>(AuthError::InvalidCredentials) <==> verify_spec(
            jwt_claims_of(token@, config.secret@),
            TokenType::REFRESH,
            old(tokens).tokens@,
            token@,
            now,
        ) is Err,
        r matches Err(e) ==> (e == AuthError::InvalidCredentials || e == AuthError::StorageError),
        verify_spec(
            jwt_claims_of(token@, config.secret@),
            TokenType::REFRESH,
            old(tokens).tokens@,
            token@,
            now,
        ) matches Ok(sub) ==> {
            &&& r is Ok <==> (email_taken(credentials.users@, sub) && !value_stored(
                old(tokens).tokens@,
                minted_access(sub, *config, now),
            ))
            &&& r matches Ok(resp) ==> resp.access_token@ == minted_access(sub, *config, now)
                && access_issued(
                old(tokens).tokens@,
                final(tokens).tokens@,
                *credentials,
                sub,
                resp.access_token@,
                *config,
                now,
            )
        },
{
    match generate_persisted_access_token(token, credentials, tokens, config, now) {
        Ok(t) => Ok(RefreshTokenResponse { access_token: t }),
        Err(e) => Err(e),
    }
}

/// Extracts the bearer token from an `Authorization` header value:
/// exactly the values of shape `Bearer <token>` with a non-empty token
/// yield the token; anything else is unauthenticated before reaching
/// the core.
pub fn extract_bearer_token(header: &str) -> (r: Option<String>)
    ensures
        r is Some <==> (header@.len() > 7 && header@.subrange(0, 7) == "Bearer "@),
        r matches Some(t) ==> t@ == header@.subrange(7, header@.len() as int),
{
    let n = header.unicode_len();
    if n <= 7 {
        return None;
    }
    let prefix = header.substring_char(0, 7);
    if !str_eq(prefix, "Bearer ") {
        return None;
    }
    Some(header.substring_char(7, n).to_owned())
}

} // verus!
