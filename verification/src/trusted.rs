//! Trusted boundary to the outside crates: token signing and decoding,
//! password hashing and checking, fresh identifiers, and the clock.
//!
//! Each wrapper's contract states what the outside call returns; the
//! logic that decides on those results lives in verified code.

use vstd::prelude::*;

verus! {

/// The boolean `bcrypt::verify` returns for a password and a stored
/// hash string.  The salt and cost ride inside the hash string, so the
/// outcome is a function of the two arguments alone.
pub uninterp spec fn bcrypt_matches(password: Seq<char>, hash: Seq<char>) -> bool;

/// Whether `bcrypt::verify` accepts the hash string at all: its only
/// error paths reject a string that does not parse as a bcrypt hash
/// with an allowed cost, a condition on the hash alone.  Together with
/// `bcrypt_matches` this names the whole outcome of `bcrypt::verify`.
pub uninterp spec fn bcrypt_hash_shaped(hash: Seq<char>) -> bool;

/// What decoding a compact signed token with a symmetric secret yields:
/// the subject, expiry and kind claims when the signature and shape
/// check out, and nothing otherwise.  Decoding is a function of the
/// token and the secret alone; payload expiry is judged separately.
pub uninterp spec fn jwt_claims_of(token: Seq<char>, secret: Seq<char>) -> Option<
    (Seq<char>, u64, Seq<char>),
>;

/// The compact token `jsonwebtoken::encode` produces for these claims
/// and this secret: serialization and HMAC signing are deterministic,
/// so the result is a function of the arguments alone.
pub uninterp spec fn jwt_of(sub: Seq<char>, exp: u64, kind: Seq<char>, secret: Seq<char>) -> Seq<
    char,
>;

/// Relies on bcrypt::hash with the default cost: a salted slow hash of
/// the password, in the 60-character bcrypt shape that bcrypt::verify
/// parses, and which bcrypt::verify accepts for the same password.
#[verifier::external_body]
pub(crate) fn bcrypt_hash(password: &str) -> (r: Result<String, ()>)
    ensures
        r matches Ok(h) ==> bcrypt_matches(password@, h@) && bcrypt_hash_shaped(h@),
{
    bcrypt::hash(password, bcrypt::DEFAULT_COST).map_err(|_| ())
}

/// Relies on bcrypt::verify: whether the password matches the stored
/// hash; deterministic in its two arguments.  It fails exactly when the
/// hash string is not in bcrypt shape — every error path rejects the
/// hash, none depends on the password.
#[verifier::external_body]
pub(crate) fn bcrypt_verify(password: &str, hash: &str) -> (r: Result<bool, ()>)
    ensures
        r is Ok <==> bcrypt_hash_shaped(hash@),
        r matches Ok(b) ==> b == bcrypt_matches(password@, hash@),
{
    bcrypt::verify(password, hash).map_err(|_| ())
}

/// Relies on jsonwebtoken::encode with HS256: the returned compact
/// token is the deterministic encoding of the three claims under the
/// secret, and jsonwebtoken::decode with the same secret recovers them.
/// Encoding never fails here: an HMAC secret key matches the default
/// header's algorithm family, these claims always serialize, and HMAC
/// signing is infallible for any key length.
#[verifier::external_body]
pub(crate) fn jwt_encode(sub: &str, exp: u64, kind: &str, secret: &str) -> (r: Result<String, ()>)
    ensures
        r is Ok,
        r matches Ok(t) ==> t@ == jwt_of(sub@, exp, kind@, secret@) && jwt_claims_of(t@, secret@)
            == Some((sub@, exp, kind@)),
{
    let mut claims = serde_json::Map::new();
    claims.insert("sub".to_string(), serde_json::Value::String(sub.to_string()));
    claims.insert("exp".to_string(), serde_json::Value::from(exp));
    claims.insert("token_type".to_string(), serde_json::Value::String(kind.to_string()));
    let key = jsonwebtoken::EncodingKey::from_secret(secret.as_bytes());
    let header = jsonwebtoken::Header::default();
    jsonwebtoken::encode(&header, &serde_json::Value::Object(claims), &key).map_err(|_| ())
}

/// Relies on jsonwebtoken::decode with HS256: recovers the subject,
/// expiry and kind claims of a token whose signature matches the secret,
/// and fails on any other input.  Expiry is not judged here.
#[verifier::external_body]
pub(crate) fn jwt_decode(token: &str, secret: &str) -> (r: Result<(String, u64, String), ()>)
    ensures
        r matches Ok(c) ==> jwt_claims_of(token@, secret@) == Some((c.0@, c.1, c.2@)),
        r matches Err(e) ==> jwt_claims_of(token@, secret@) is None,
{
    let mut validation = jsonwebtoken::Validation::new(jsonwebtoken::Algorithm::HS256);
    validation.validate_exp = false;
    validation.required_spec_claims = std::collections::HashSet::new();
    let key = jsonwebtoken::DecodingKey::from_secret(secret.as_bytes());
    let data = jsonwebtoken::decode::<serde_json::Map<String, serde_json::Value>>(
        token, &key, &validation,
    ).map_err(|_| ())?;
    let sub = data.claims.get("sub").and_then(|v| v.as_str()).ok_or(())?.to_string();
    let exp = data.claims.get("exp").and_then(|v| v.as_u64()).ok_or(())?;
    let kind = data.claims.get("token_type").and_then(|v| v.as_str()).ok_or(())?.to_string();
    Ok((sub, exp, kind))
}

/// Relies on uuid::Uuid::new_v4 and its hyphenated rendering: a fresh
/// random identifier, 36 characters long.
#[verifier::external_body]
pub(crate) fn fresh_uuid() -> (r: String)
    ensures
        r@.len() == 36,
{
    uuid::Uuid::new_v4().to_string()
}

/// Relies on chrono::Utc::now: the current epoch time in whole seconds.
/// Nothing is promised of a clock reading.
#[verifier::external_body]
pub(crate) fn current_epoch_seconds() -> i64 {
    chrono::Utc::now().timestamp()
}

} // verus!
