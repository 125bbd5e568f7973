//! Token store: persistence for issued token rows, keyed by the opaque
//! signed value.
//!
//! A row always records the issued value verbatim, with expiry and
//! revocation flags; rows are never updated in place here — revocation
//! is an external policy hook, and validity is re-derived from the
//! stored flags at verification time.  Lookup is exact-match on the
//! opaque string; among several rows holding the same value the most
//! recently inserted one wins.

use vstd::prelude::*;
use crate::credential_store::CredentialStore;
use crate::credential_store::email_taken;
use crate::errors::StoreError;
use crate::jwt::UserTokenResponse;
use crate::trusted::fresh_uuid;
use crate::types::str_eq;

verus! {

/// Persisted token row.
#[derive(Debug)]
pub struct Token {
    pub id: String,
    pub is_expired: Option<bool>,
    pub is_revoked: Option<bool>,
    pub user_id: String,
    pub token: Option<String>,
    pub created_at: Option<u64>,
}

impl Clone for Token {
    fn clone(&self) -> (r: Self)
        ensures
            r == *self,
    {
        Token {
            id: self.id.clone(),
            is_expired: crate::user::clone_flag(&self.is_expired),
            is_revoked: crate::user::clone_flag(&self.is_revoked),
            user_id: self.user_id.clone(),
            token: crate::user::clone_opt_string(&self.token),
            created_at: match &self.created_at {
                Some(t) => Some(*t),
                None => None,
            },
        }
    }
}

/// Whether a row records this opaque value.
pub open spec fn token_value_matches(rec: Token, value: Seq<char>) -> bool {
    rec.token matches Some(s) && s@ == value
}

/// Whether a row's stored expiry flag is set (an absent flag counts as
/// clear, as the lookup treats it).
pub open spec fn rec_expired(rec: Token) -> bool {
    rec.is_expired == Some(true)
}

/// Whether a row's stored revocation flag is set.
pub open spec fn rec_revoked(rec: Token) -> bool {
    rec.is_revoked == Some(true)
}

/// Whether some stored row records this opaque value.
pub open spec fn value_stored(toks: Seq<Token>, value: Seq<char>) -> bool {
    exists|i: int| 0 <= i < toks.len() && token_value_matches(#[trigger] toks[i], value)
}

/// Whether two rows record the same opaque value.
pub open spec fn rows_share_value(a: Token, b: Token) -> bool {
    a.token matches Some(s) && b.token matches Some(t) && s@ == t@
}

/// The opaque value is the key of the store: no two rows record the
/// same value.
pub open spec fn token_values_unique(toks: Seq<Token>) -> bool {
    forall|i: int, j: int|
        #![trigger toks[i], toks[j]]
        0 <= i < j < toks.len() ==> !rows_share_value(toks[i], toks[j])
}

/// The stored row holding this value, the most recently inserted one if
/// several do.
pub open spec fn latest_match(toks: Seq<Token>, value: Seq<char>) -> Option<Token>
    decreases toks.len(),
{
    if toks.len() == 0 {
        None
    } else if token_value_matches(toks.last(), value) {
        Some(toks.last())
    } else {
        latest_match(toks.drop_last(), value)
    }
}

/// Store for issued token rows.
#[derive(Debug)]
pub struct TokenStore {
    pub tokens: Vec<Token>,
}

impl TokenStore {
    /// Well-formedness: rows are keyed by the opaque value, so no two
    /// rows record the same value.  This is what makes stored expiry
    /// and revocation terminal: the one row for a value is
    /// authoritative, and no later insert can shadow it.
    pub open spec fn wf(&self) -> bool {
        token_values_unique(self.tokens@)
    }

    /// An empty store.
    pub fn new() -> (r: TokenStore)
        ensures
            r.wf(),
            r.tokens@.len() == 0,
    {
        TokenStore { tokens: Vec::new() }
    }

    /// Exact-match lookup of a row by its opaque token value.  Succeeds
    /// if and only if some row records the value, and returns the most
    /// recently inserted such row.
    pub fn get_token_by_token(&self, value: &str) -> (r: Result<Token, StoreError>)
        ensures
            r matches Ok(t) ==> latest_match(self.tokens@, value@) == Some(t),
            r matches Err(e) ==> e == StoreError::NotFound && latest_match(self.tokens@, value@)
                is None,
            r matches Err(e) ==> forall|k: int|
                0 <= k < self.tokens@.len() ==> !token_value_matches(
                    #[trigger] self.tokens@[k],
                    value@,
                ),
    {
        let ghost all = self.tokens@;
        let mut i: usize = self.tokens.len();
        proof {
            assert(all.take(i as int) =~= all);
        }
        while i > 0
            invariant
                i <= all.len(),
                all == self.tokens@,
                latest_match(all, value@) == latest_match(all.take(i as int), value@),
                forall|k: int|
                    i <= k < all.len() ==> !token_value_matches(#[trigger] all[k], value@),
            decreases i,
        {
            i = i - 1;
            let rec = &self.tokens[i];
            let matched = match &rec.token {
                Some(s) => str_eq(s.as_str(), value),
                None => false,
            };
            proof {
                assert(all.take(i + 1 as int).last() == all[i as int]);
                assert(all.take(i + 1 as int).drop_last() =~= all.take(i as int));
            }
            if matched {
                return Ok(rec.clone());
            }
        }
        proof {
            assert(all.take(0) =~= Seq::<Token>::empty());
        }
        Err(StoreError::NotFound)
    }
}

/// Whether some stored row records the value, decided by scan.
fn value_stored_exec(toks: &Vec<Token>, value: &str) -> (r: bool)
    ensures
        r == value_stored(toks@, value@),
{
    let n = toks.len();
    let mut i: usize = 0;
    while i < n
        invariant
            n == toks@.len(),
            forall|k: int| 0 <= k < i ==> !token_value_matches(#[trigger] toks@[k], value@),
        decreases n - i,
    {
        let matched = match &toks[i].token {
            Some(s) => str_eq(s.as_str(), value),
            None => false,
        };
        if matched {
            return true;
        }
        i += 1;
    }
    false
}

/// The row that persisting `value` for `user_id` at `now` inserts.
pub open spec fn inserted_row(rec: Token, value: Seq<char>, user_id: Seq<char>, now: u64) -> bool {
    &&& rec.token matches Some(s) && s@ == value
    &&& rec.is_expired == Some(false)
    &&& rec.is_revoked == Some(false)
    &&& rec.user_id@ == user_id
    &&& rec.created_at == Some(now)
}

/// Builds a fresh unexpired, unrevoked row for a signed value.
fn new_row(value: &str, user_id: &str, now: u64) -> (r: Token)
    ensures
        inserted_row(r, value@, user_id@, now),
{
    Token {
        id: fresh_uuid(),
        is_expired: Some(false),
        is_revoked: Some(false),
        user_id: user_id.to_owned(),
        token: Some(value.to_owned()),
        created_at: Some(now),
    }
}

/// Persists a freshly minted access/refresh pair as two new rows owned
/// by the user registered under `email`, in one call: both rows appear,
/// or on any failure neither does.  The opaque value is the store's
/// key, so a pair whose values are already stored, or equal to each
/// other, is refused.  Returns the pair as stored.
pub fn persist_refresh_and_access_tokens(
    store: &mut TokenStore,
    credentials: &CredentialStore,
    tokens: &UserTokenResponse,
    email: &str,
    now: u64,
) -> (r: Result<UserTokenResponse, StoreError>)
    requires
        credentials.wf(),
        old(store).wf(),
    ensures
        final(store).wf(),
        r matches Err(e) ==> *final(store) == *old(store) && (e == StoreError::NotFound || e
            == StoreError::Storage),
        r == Err::<UserTokenResponse, StoreError>(StoreError::NotFound) <==> !email_taken(
            credentials.users@,
            email@,
        ),
        r == Err::<UserTokenResponse, StoreError>(StoreError::Storage) <==> (email_taken(
            credentials.users@,
            email@,
        ) && (value_stored(old(store).tokens@, tokens.access@) || value_stored(
            old(store).tokens@,
            tokens.refresh@,
        ) || tokens.access@ == tokens.refresh@)),
        r is Ok <==> (email_taken(credentials.users@, email@) && !value_stored(
            old(store).tokens@,
            tokens.access@,
        ) && !value_stored(old(store).tokens@, tokens.refresh@) && tokens.access@
            != tokens.refresh@),
        r matches Ok(out) ==> {
            &&& out.access@ == tokens.access@
            &&& out.refresh@ == tokens.refresh@
            &&& final(store).tokens@.len() == old(store).tokens@.len() + 2
            &&& final(store).tokens@.drop_last().drop_last() == old(store).tokens@
            &&& exists|i: int|
                0 <= i < credentials.users@.len() && #[trigger] credentials.users@[i].email@
                    == email@ && inserted_row(
                    final(store).tokens@[final(store).tokens@.len() - 2],
                    tokens.access@,
                    credentials.users@[i].id@,
                    now,
                ) && inserted_row(
                    final(store).tokens@.last(),
                    tokens.refresh@,
                    credentials.users@[i].id@,
                    now,
                )
        },
{
    let user = match credentials.get_user_by_email(email) {
        Ok(u) => u,
        Err(_) => {
            return Err(StoreError::NotFound);
        },
    };
    if value_stored_exec(&store.tokens, tokens.access.as_str()) || value_stored_exec(
        &store.tokens,
        tokens.refresh.as_str(),
    ) || str_eq(tokens.access.as_str(), tokens.refresh.as_str()) {
        return Err(StoreError::Storage);
    }
    let ghost before = store.tokens@;
    let access_row = new_row(tokens.access.as_str(), user.id.as_str(), now);
    let refresh_row = new_row(tokens.refresh.as_str(), user.id.as_str(), now);
    let ghost acc = access_row;
    let ghost rf = refresh_row;
    store.tokens.push(access_row);
    store.tokens.push(refresh_row);
    proof {
        let s2 = store.tokens@;
        assert(s2.drop_last() =~= before.push(acc));
        assert(s2.drop_last().drop_last() =~= before);
        assert(s2[s2.len() - 2] == acc);
        assert(s2.last() == rf);
        assert forall|i: int, j: int| 0 <= i < j < s2.len() implies !rows_share_value(
            s2[i],
            s2[j],
        ) by {
            if j < s2.len() - 2 {
                assert(s2[i] == before[i] && s2[j] == before[j]);
            } else if j == s2.len() - 2 {
                assert(s2[i] == before[i] && s2[j] == acc);
                if rows_share_value(before[i], acc) {
                    assert(token_value_matches(before[i], tokens.access@));
                }
            } else {
                assert(s2[j] == rf);
                if i < s2.len() - 2 {
                    assert(s2[i] == before[i]);
                    if rows_share_value(before[i], rf) {
                        assert(token_value_matches(before[i], tokens.refresh@));
                    }
                } else {
                    assert(s2[i] == acc);
                }
            }
        }
    }
    Ok(UserTokenResponse { access: tokens.access.clone(), refresh: tokens.refresh.clone() })
}

/// Persists one freshly minted access token as a new row owned by the
/// user registered under `email`.  The opaque value is the store's
/// key, so a value that is already stored is refused.  Returns the
/// value as stored.
pub fn persist_access_tokens(
    store: &mut TokenStore,
    credentials: &CredentialStore,
    access_token: &str,
    email: &str,
    now: u64,
) -> (r: Result<String, StoreError>)
    requires
        credentials.wf(),
        old(store).wf(),
    ensures
        final(store).wf(),
        r matches Err(e) ==> *final(store) == *old(store) && (e == StoreError::NotFound || e
            == StoreError::Storage),
        r == Err::<String, StoreError>(StoreError::NotFound) <==> !email_taken(
            credentials.users@,
            email@,
        ),
        r == Err::<String, StoreError>(StoreError::Storage) <==> (email_taken(
            credentials.users@,
            email@,
        ) && value_stored(old(store).tokens@, access_token@)),
        r is Ok <==> (email_taken(credentials.users@, email@) && !value_stored(
            old(store).tokens@,
            access_token@,
        )),
        r matches Ok(out) ==> {
            &&& out@ == access_token@
            &&& final(store).tokens@.len() == old(store).tokens@.len() + 1
            &&& final(store).tokens@.drop_last() == old(store).tokens@
            &&& exists|i: int|
                0 <= i < credentials.users@.len() && #[trigger] credentials.users@[i].email@
                    == email@ && inserted_row(
                    final(store).tokens@.last(),
                    access_token@,
                    credentials.users@[i].id@,
                    now,
                )
        },
{
    let user = match credentials.get_user_by_email(email) {
        Ok(u) => u,
        Err(_) => {
            return Err(StoreError::NotFound);
        },
    };
    if value_stored_exec(&store.tokens, access_token) {
        return Err(StoreError::Storage);
    }
    let ghost before = store.tokens@;
    let row = new_row(access_token, user.id.as_str(), now);
    let ghost g = row;
    store.tokens.push(row);
    proof {
        let s2 = store.tokens@;
        assert(s2.drop_last() =~= before);
        assert(s2.last() == g);
        assert forall|i: int, j: int| 0 <= i < j < s2.len() implies !rows_share_value(
            s2[i],
            s2[j],
        ) by {
            assert(s2[i] == before[i]);
            if j < s2.len() - 1 {
                assert(s2[j] == before[j]);
            } else {
                assert(s2[j] == g);
                if rows_share_value(before[i], g) {
                    assert(token_value_matches(before[i], access_token@));
                }
            }
        }
    }
    Ok(access_token.to_owned())
}

} // verus!
