use vstd::prelude::*;

verus! {

/// The claims carried by a bearer token: subject (user id), issued-at and
/// expiry, both Unix seconds. Ephemeral — never persisted.
#[derive(Clone, Copy, Debug, PartialEq, Eq, Structural)]
pub struct Claims {
    pub sub: u64,
    pub iat: i64,
    pub exp: i64,
}

/// Session tokens live for exactly one hour from issuance.
pub const SESSION_TTL_SECS: i64 = 3600;

/// The signed encoding of the claims `(sub, iat, exp)` under `secret`.
///
/// This names the outcome of JWT encoding (HS256 over a fixed claim set),
/// a pure function of the claims and the key.
pub uninterp spec fn jwt_of(sub: u64, iat: i64, exp: i64, secret: Seq<char>) -> Seq<char>;

/// The claims recovered from `token` under `secret`, or `None` when the
/// token is malformed or its signature does not verify.
///
/// This names the outcome of JWT signature checking and claim extraction
/// with time-based validation turned off: a pure function of the token and
/// the key. Expiry is checked separately, in verified code.
pub uninterp spec fn jwt_parse(token: Seq<char>, secret: Seq<char>) -> Option<(u64, i64, i64)>;

/// Relies on `jsonwebtoken::encode` with an HS256 header: signs the claim
/// set `{sub, iat, exp}` with `secret`, deterministically. Decoding the
/// produced token with the same secret recovers exactly those claims
/// (`jsonwebtoken::decode`, the round trip the crate documents). For HS256
/// with a key built by `from_secret` and a string-keyed claim object the
/// encoding cannot fail — HMAC accepts keys of any length and the claim
/// serialization is infallible — so the call's error arm is unreachable
/// and the token is always produced.
#[verifier::external_body]
fn jwt_encode(sub: u64, iat: i64, exp: i64, secret: &str) -> (r: String)
    ensures
        r@ == jwt_of(sub, iat, exp, secret@),
        jwt_parse(r@, secret@) == Some((sub, iat, exp)),
{
    let mut claims = serde_json::Map::new();
    claims.insert("sub".to_string(), serde_json::Value::from(sub));
    claims.insert("iat".to_string(), serde_json::Value::from(iat));
    claims.insert("exp".to_string(), serde_json::Value::from(exp));
    let key = jsonwebtoken::EncodingKey::from_secret(secret.as_bytes());
    jsonwebtoken::encode(&jsonwebtoken::Header::default(), &serde_json::Value::Object(claims), &key)
        .expect("HS256 signing with a secret key cannot fail")
}

/// Relies on `jsonwebtoken::decode` over HS256 with expiry validation
/// switched off, so the result depends on the token and the secret alone:
/// it checks the signature and hands back the `sub`, `iat` and `exp`
/// claims, or fails on any malformed or tampered token.
#[verifier::external_body]
fn jwt_decode(token: &str, secret: &str) -> (r: Option<(u64, i64, i64)>)
    ensures
        r == jwt_parse(token@, secret@),
{
    let mut validation = jsonwebtoken::Validation::new(jsonwebtoken::Algorithm::HS256);
    validation.validate_exp = false;
    validation.required_spec_claims = std::collections::HashSet::new();
    let key = jsonwebtoken::DecodingKey::from_secret(secret.as_bytes());
    let data = jsonwebtoken::decode::<serde_json::Value>(token, &key, &validation).ok()?;
    let sub = data.claims.get("sub")?.as_u64()?;
    let iat = data.claims.get("iat")?.as_i64()?;
    let exp = data.claims.get("exp")?.as_i64()?;
    Some((sub, iat, exp))
}

/// Mints a signed session token for `user_id`, valid for one hour from
/// `now`. Issuance is owed: signing cannot fail.
pub fn create_token(user_id: u64, secret: &str, now: i64) -> (r: String)
    requires
        now <= i64::MAX - SESSION_TTL_SECS,
    ensures
        r@ == jwt_of(user_id, now, (now + SESSION_TTL_SECS) as i64, secret@),
        jwt_parse(r@, secret@) == Some((user_id, now, (now + SESSION_TTL_SECS) as i64)),
{
    jwt_encode(user_id, now, now + SESSION_TTL_SECS, secret)
}

/// Validates a bearer token: signature and expiry. Any failure — bad
/// signature, malformed structure, or expiry at or before `now` — collapses
/// to the single `None` outcome.
pub fn validate_token(token: &str, secret: &str, now: i64) -> (r: Option<Claims>)
    ensures
        r matches Some(c) ==> {
            &&& jwt_parse(token@, secret@) == Some((c.sub, c.iat, c.exp))
            &&& now < c.exp
        },
        r is None ==> (jwt_parse(token@, secret@) matches Some(c) ==> now >= c.2),
{
    match jwt_decode(token, secret) {
        Some((sub, iat, exp)) => {
            if now < exp {
                Some(Claims { sub, iat, exp })
            } else {
                None
            }
        },
        None => None,
    }
}

} // verus!
