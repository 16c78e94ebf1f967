//! Token codec: signs session claims into a compact token and checks a
//! presented token against the signing secret and the clock.
//!
//! Signing and signature checking are done by the `jsonwebtoken` crate;
//! both are deterministic in the secret and the text, so their results
//! carry names (`jwt_token_of`, `jwt_claims_of`) that the contracts speak
//! of. The expiry check is done here, against a caller-supplied clock, so
//! that it is verified and testable at any instant.

use vstd::prelude::*;

use crate::model::TokenClaims;

verus! {

/// The signed token that the codec produces from a secret and the claims
/// (subject, issued-at, expiry).
pub uninterp spec fn jwt_token_of(secret: Seq<char>, sub: Seq<char>, iat: u64, exp: u64) -> Seq<
    char,
>;

/// The claims that signature checking recovers from a token under a
/// secret; nothing when the token is malformed or the signature does not
/// match the secret.
pub uninterp spec fn jwt_claims_of(secret: Seq<char>, token: Seq<char>) -> Option<
    (Seq<char>, u64, u64),
>;

/// Relies on `jsonwebtoken::encode` with the default HS256 header: the
/// token depends on the secret and the claims alone, and decoding it with
/// the same secret (`jsonwebtoken::decode`, see `jwt_decode`) recovers
/// exactly the claims that were signed. The call cannot fail here: the
/// key comes from `from_secret`, so its family matches the header's
/// HS256, the claims are a string-keyed JSON object whose serialization
/// cannot fail, and HMAC signing accepts keys of any length.
#[verifier::external_body]
fn jwt_encode(secret: &str, sub: &str, iat: u64, exp: u64) -> (token: String)
    ensures
        token@ == jwt_token_of(secret@, sub@, iat, exp),
        jwt_claims_of(secret@, token@) == Some((sub@, iat, exp)),
{
    let mut claims = serde_json::Map::new();
    claims.insert("sub".to_owned(), serde_json::Value::from(sub));
    claims.insert("iat".to_owned(), serde_json::Value::from(iat));
    claims.insert("exp".to_owned(), serde_json::Value::from(exp));
    jsonwebtoken::encode(
        &jsonwebtoken::Header::default(),
        &serde_json::Value::Object(claims),
        &jsonwebtoken::EncodingKey::from_secret(secret.as_bytes()),
    ).expect("HS256 signing of string-keyed claims cannot fail")
}

/// Relies on `jsonwebtoken::decode` with expiry checking turned off and no
/// required claims: under a fixed secret the outcome depends on the token
/// text alone, and is exactly the claims that were signed into it, or
/// nothing when the token is malformed or signed under another secret.
#[verifier::external_body]
fn jwt_decode(secret: &str, token: &str) -> (r: Option<(String, u64, u64)>)
    ensures
        match jwt_claims_of(secret@, token@) {
            Some((sub, iat, exp)) => r matches Some(c) && c.0@ == sub && c.1 == iat && c.2 == exp,
            None => r is None,
        },
{
    let mut validation = jsonwebtoken::Validation::default();
    validation.validate_exp = false;
    validation.required_spec_claims = std::collections::HashSet::new();
    let key = jsonwebtoken::DecodingKey::from_secret(secret.as_bytes());
    let data = jsonwebtoken::decode::<serde_json::Value>(token, &key, &validation).ok()?;
    let sub = data.claims.get("sub")?.as_str()?.to_owned();
    let iat = data.claims.get("iat")?.as_u64()?;
    let exp = data.claims.get("exp")?.as_u64()?;
    Some((sub, iat, exp))
}

/// What `verify` accepts: the claims recovered from the token, provided
/// their expiry lies strictly after `now`; otherwise nothing. Malformed
/// and expired tokens are deliberately one indistinguishable outcome.
pub open spec fn spec_verify(secret: Seq<char>, token: Seq<char>, now: u64) -> Option<
    (Seq<char>, u64, u64),
> {
    match jwt_claims_of(secret, token) {
        Some((sub, iat, exp)) => if exp > now {
            Some((sub, iat, exp))
        } else {
            None
        },
        None => None,
    }
}

/// Issues a signed token for `subject`, issued at `now` and expiring
/// `ttl` seconds later. The token carries exactly these claims, and
/// checking it with the same secret recovers them.
pub fn issue(secret: &str, subject: &str, now: u64, ttl: u64) -> (token: String)
    requires
        now + ttl <= u64::MAX,
    ensures
        token@ == jwt_token_of(secret@, subject@, now, (now + ttl) as u64),
        jwt_claims_of(secret@, token@) == Some((subject@, now, (now + ttl) as u64)),
{
    jwt_encode(secret, subject, now, now + ttl)
}

/// Checks a presented token: the signature must match `secret` and the
/// expiry must lie strictly after `now`. Returns the embedded claims, or
/// nothing for the single `Invalid` outcome.
pub fn verify(secret: &str, token: &str, now: u64) -> (r: Option<TokenClaims>)
    ensures
        match spec_verify(secret@, token@, now) {
            Some((sub, iat, exp)) => r matches Some(c) && c.sub@ == sub && c.iat == iat && c.exp
                == exp,
            None => r is None,
        },
{
    match jwt_decode(secret, token) {
        Some((sub, iat, exp)) => if exp > now {
            Some(TokenClaims { sub, iat, exp })
        } else {
            None
        },
        None => None,
    }
}

/// Law: while the expiry of the claims signed into a token lies strictly
/// in the future, verification accepts the token and recovers exactly
/// those claims; from the expiry instant on it accepts nothing.
pub proof fn lemma_verify_round_trip(
    secret: Seq<char>,
    token: Seq<char>,
    sub: Seq<char>,
    iat: u64,
    exp: u64,
    now: u64,
)
    requires
        jwt_claims_of(secret, token) == Some((sub, iat, exp)),
    ensures
        now < exp ==> spec_verify(secret, token, now) == Some((sub, iat, exp)),
        now >= exp ==> spec_verify(secret, token, now) is None,
{
}

} // verus!
