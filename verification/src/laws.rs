//! Laws of the token lifecycle, proved over the verification verdict
//! `verify_spec` and the issuance predicates `session_issued` and
//! `access_issued` that the services' own contracts state.

use vstd::prelude::*;
use crate::credential_store::CredentialStore;
use crate::errors::TokenError;
use crate::jwt::TokenConfig;
use crate::jwt::TokenType;
use crate::jwt::access_issued;
use crate::jwt::kind_name;
use crate::jwt::session_issued;
use crate::jwt::verify_spec;
use crate::token_store::Token;
use crate::token_store::latest_match;
use crate::token_store::rec_expired;
use crate::token_store::rec_revoked;
use crate::token_store::rows_share_value;
use crate::token_store::token_value_matches;
use crate::token_store::token_values_unique;

verus! {

/// Round trip: a token whose decoded claims are a subject, an expiry and
/// the expected kind — exactly what minting leaves behind — verifies to
/// the original subject whenever the check runs before the payload
/// expiry and the stored row holding the value is neither expired nor
/// revoked.
pub proof fn lemma_mint_then_verify(
    token: Seq<char>,
    secret: Seq<char>,
    sub: Seq<char>,
    exp: u64,
    kind: TokenType,
    toks: Seq<Token>,
    now: u64,
)
    requires
        crate::trusted::jwt_claims_of(token, secret) == Some((sub, exp, kind_name(kind))),
        now < exp,
        latest_match(toks, token) matches Some(rec) && !rec_expired(rec) && !rec_revoked(rec),
    ensures
        verify_spec(crate::trusted::jwt_claims_of(token, secret), kind, toks, token, now) == Ok::<
            Seq<char>,
            TokenError,
        >(sub),
{
}

/// A freshly issued session pair is immediately live in the store: both
/// values resolve to a stored row that is neither expired nor revoked.
pub proof fn lemma_session_pair_rows(
    old_toks: Seq<Token>,
    new_toks: Seq<Token>,
    credentials: CredentialStore,
    email: Seq<char>,
    access: Seq<char>,
    refresh: Seq<char>,
    config: TokenConfig,
    now: u64,
)
    requires
        session_issued(old_toks, new_toks, credentials, email, access, refresh, config, now),
    ensures
        latest_match(new_toks, access) matches Some(rec) && !rec_expired(rec) && !rec_revoked(rec),
        latest_match(new_toks, refresh) matches Some(rec) && !rec_expired(rec) && !rec_revoked(
            rec,
        ),
{
    let last = new_toks.last();
    let second = new_toks[new_toks.len() - 2];
    assert(new_toks.drop_last().last() == second);
    assert(latest_match(new_toks, refresh) == Some(last));
    if !(last.token matches Some(s) && s@ == access) {
        assert(latest_match(new_toks, access) == latest_match(new_toks.drop_last(), access));
        assert(latest_match(new_toks.drop_last(), access) == Some(second));
    }
}

/// Login followed immediately by verification of the issued access
/// token, with the same secret and kind `ACCESS`, succeeds and returns
/// the email that logged in — provided the configured access lifetime is
/// not zero, so the payload expiry has not already elapsed.
pub proof fn lemma_login_then_verify(
    old_toks: Seq<Token>,
    new_toks: Seq<Token>,
    credentials: CredentialStore,
    email: Seq<char>,
    access: Seq<char>,
    refresh: Seq<char>,
    config: TokenConfig,
    now: u64,
)
    requires
        session_issued(old_toks, new_toks, credentials, email, access, refresh, config, now),
        now + config.access_expiration <= u64::MAX,
        config.access_expiration > 0,
    ensures
        verify_spec(
            crate::trusted::jwt_claims_of(access, config.secret@),
            TokenType::ACCESS,
            new_toks,
            access,
            now,
        ) == Ok::<Seq<char>, TokenError>(email),
{
    lemma_session_pair_rows(old_toks, new_toks, credentials, email, access, refresh, config, now);
    lemma_mint_then_verify(
        access,
        config.secret@,
        email,
        (now + config.access_expiration) as u64,
        TokenType::ACCESS,
        new_toks,
        now,
    );
}

/// A refresh token is not one-time-use: renewing an access token only
/// appends a fresh unexpired, unrevoked row, so a refresh token that
/// just verified keeps verifying after the renewal, at any time still
/// before its own payload expiry — its stored row is untouched, and only
/// external revocation or expiry of that row can end the repetition.
pub proof fn lemma_refresh_token_reusable(
    claims: Option<(Seq<char>, u64, Seq<char>)>,
    token: Seq<char>,
    sub: Seq<char>,
    old_toks: Seq<Token>,
    new_toks: Seq<Token>,
    credentials: CredentialStore,
    email: Seq<char>,
    access: Seq<char>,
    config: TokenConfig,
    now: u64,
    later: u64,
)
    requires
        verify_spec(claims, TokenType::REFRESH, old_toks, token, now) == Ok::<
            Seq<char>,
            TokenError,
        >(sub),
        access_issued(old_toks, new_toks, credentials, email, access, config, now),
        claims matches Some(c) ==> later < c.1,
    ensures
        verify_spec(claims, TokenType::REFRESH, new_toks, token, later) == Ok::<
            Seq<char>,
            TokenError,
        >(sub),
{
    let last = new_toks.last();
    assert(new_toks == old_toks.push(last));
    assert(new_toks.drop_last() =~= old_toks);
    if !(last.token matches Some(s) && s@ == token) {
        assert(latest_match(new_toks, token) == latest_match(old_toks, token));
    }
}

/// A token's stored life is terminal: once the row recording a value
/// is flagged expired or revoked, no verification of that value can
/// succeed again — for any claims, any expected kind and any time — and
/// inserting further rows cannot bring it back, because the store keys
/// rows by their value, so no later row records the same value.
pub proof fn lemma_terminal_state(
    claims: Option<(Seq<char>, u64, Seq<char>)>,
    expected: TokenType,
    toks: Seq<Token>,
    extra: Token,
    value: Seq<char>,
    now: u64,
)
    requires
        latest_match(toks, value) matches Some(rec) && (rec_expired(rec) || rec_revoked(rec)),
        token_values_unique(toks.push(extra)),
    ensures
        verify_spec(claims, expected, toks, value, now) is Err,
        verify_spec(claims, expected, toks.push(extra), value, now) is Err,
        latest_match(toks.push(extra), value) == latest_match(toks, value),
{
    let grown = toks.push(extra);
    assert(grown.drop_last() =~= toks);
    if extra.token matches Some(s) && s@ == value {
        let rec = latest_match(toks, value)->Some_0;
        lemma_latest_match_is_stored(toks, value);
        let i = choose|i: int|
            0 <= i < toks.len() && #[trigger] toks[i] == latest_match(toks, value)->Some_0;
        assert(grown[i] == toks[i]);
        assert(rows_share_value(grown[i], grown[grown.len() - 1]));
        assert(false);
    }
}

/// A found row is one of the stored rows.
pub proof fn lemma_latest_match_is_stored(toks: Seq<Token>, value: Seq<char>)
    requires
        latest_match(toks, value) is Some,
    ensures
        exists|i: int|
            0 <= i < toks.len() && #[trigger] toks[i] == latest_match(toks, value)->Some_0
                && token_value_matches(toks[i], value),
    decreases toks.len(),
{
    if toks.len() > 0 && !token_value_matches(toks.last(), value) {
        lemma_latest_match_is_stored(toks.drop_last(), value);
        let i = choose|i: int|
            0 <= i < toks.drop_last().len() && #[trigger] toks.drop_last()[i] == latest_match(
                toks.drop_last(),
                value,
            )->Some_0 && token_value_matches(toks.drop_last()[i], value);
        assert(toks[i] == toks.drop_last()[i]);
    }
}

/// The three failure modes a caller must not be able to tell apart —
/// unknown token value, correct signature but wrong kind, and correct
/// signature and kind but a revoked stored row — are each a verification
/// failure, and refresh and login surface every verification failure as
/// the same single credential error.
pub proof fn lemma_verify_failures_uniform(
    claims: Option<(Seq<char>, u64, Seq<char>)>,
    expected: TokenType,
    toks: Seq<Token>,
    token: Seq<char>,
    now: u64,
)
    requires
        claims matches Some(c) ==> now < c.1,
        (latest_match(toks, token) is None) || (claims matches Some(c) && c.2 != kind_name(
            expected,
        )) || (claims matches Some(c) && latest_match(toks, token) matches Some(rec)
            && rec_revoked(rec) && !rec_expired(rec)),
    ensures
        verify_spec(claims, expected, toks, token, now) is Err,
{
}

} // verus!
