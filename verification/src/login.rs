//! The lifetime of the tokens issued at login.
use vstd::prelude::*;
use crate::text::{parse_u64, parse_u64_spec, strip_underscores, without_underscores};

verus! {

/// Token lifetime in seconds when none is configured.
pub const DEFAULT_JWT_EXPIRATION: u64 = 86400;

/// Largest and smallest second a token expiry can fall on (the range of
/// calendar dates the clock library represents).
pub const MAX_TIMESTAMP: i64 = 8210266876799;
pub const MIN_TIMESTAMP: i64 = -8334601315200;

/// Largest span, in seconds, the clock library adds to a date.
pub const MAX_DELTA_SECS: i64 = 9223372036854775;

/// The configured token lifetime: the setting read as a number once its
/// `_` separators are dropped, or the default when it is absent or not a
/// number. 0 means tokens never expire.
pub open spec fn jwt_expiration_of(raw: Option<Seq<char>>) -> u64 {
    match raw {
        Some(s) => match parse_u64_spec(without_underscores(s)) {
            Some(n) => n,
            None => DEFAULT_JWT_EXPIRATION,
        },
        None => DEFAULT_JWT_EXPIRATION,
    }
}

/// Reads the token lifetime setting.
pub fn jwt_expiration(raw: Option<&str>) -> (r: u64)
    ensures
        r == jwt_expiration_of(match raw {
            Some(s) => Some(s@),
            None => None,
        }),
{
    match raw {
        Some(s) => {
            let digits = strip_underscores(s);
            match parse_u64(&digits) {
                Some(n) => n,
                None => DEFAULT_JWT_EXPIRATION,
            }
        },
        None => DEFAULT_JWT_EXPIRATION,
    }
}

/// Whether the expiry of a token issued at second `now` with lifetime
/// `lifetime` lies in the representable range; the lifetime is taken as a
/// signed number of seconds.
pub open spec fn expiry_computable(now: i64, lifetime: u64) -> bool {
    lifetime == 0 || {
        let span = lifetime as i64;
        &&& -MAX_DELTA_SECS <= span <= MAX_DELTA_SECS
        &&& MIN_TIMESTAMP <= now + span <= MAX_TIMESTAMP
    }
}

/// Whether `token_expiry` may be asked for `now` and `lifetime`.
pub fn can_compute_expiry(now: i64, lifetime: u64) -> (r: bool)
    ensures
        r == expiry_computable(now, lifetime),
{
    if lifetime == 0 {
        return true;
    }
    let span = lifetime as i64;
    if span < -MAX_DELTA_SECS || span > MAX_DELTA_SECS {
        return false;
    }
    let at = now as i128 + span as i128;
    MIN_TIMESTAMP as i128 <= at && at <= MAX_TIMESTAMP as i128
}

/// The expiry claim of a token issued at second `now`: none for a
/// lifetime of 0, else the second `lifetime` later.
pub open spec fn expiry_of(now: i64, lifetime: u64) -> Option<usize> {
    if lifetime == 0 {
        None
    } else {
        Some((now + (lifetime as i64)) as usize)
    }
}

/// The expiry claim of a token issued at second `now`.
pub fn token_expiry(now: i64, lifetime: u64) -> (r: Option<usize>)
    requires
        expiry_computable(now, lifetime),
    ensures
        r == expiry_of(now, lifetime),
{
    if lifetime == 0 {
        None
    } else {
        let at: i64 = now + lifetime as i64;
        Some(at as usize)
    }
}

/// The HS256 token, signed with `secret`, whose claims are, in this
/// order, `sub`, `email`, `is_admin`, and `exp` when there is one.
pub uninterp spec fn hs256_token_of(sub: i32, email: Seq<char>, is_admin: bool, exp: Option<usize>, secret: Seq<u8>) -> Seq<char>;

/// Signs a token with `jsonwebtoken::encode` (default header, HS256) over
/// the claims `sub`, `email`, `is_admin` and, when given, `exp`, in that
/// order. `encode` fails only when the key's algorithm family differs from
/// the header's, which an HMAC key under the default HS256 header never
/// does, and serializing a JSON map does not fail; so the token is always
/// the named one.
#[verifier::external_body]
fn issue_token(sub: i32, email: &str, is_admin: bool, exp: Option<usize>, secret: &[u8]) -> (r: String)
    ensures
        r@ == hs256_token_of(sub, email@, is_admin, exp, secret@),
{
    let mut claims = serde_json::Map::new();
    claims.insert("sub".to_string(), serde_json::Value::from(sub));
    claims.insert("email".to_string(), serde_json::Value::from(email));
    claims.insert("is_admin".to_string(), serde_json::Value::from(is_admin));
    claims.extend(exp.map(|e| ("exp".to_string(), serde_json::Value::from(e))));
    let key = jsonwebtoken::EncodingKey::from_secret(secret);
    jsonwebtoken::encode(&jsonwebtoken::Header::default(), &claims, &key).unwrap_or_default()
}

/// The token issued at login at second `now` to the user `sub` with
/// address `email` and role `is_admin`: it expires `lifetime` seconds
/// later, or never for a lifetime of 0.
pub fn login_token(sub: i32, email: &str, is_admin: bool, now: i64, lifetime: u64, secret: &[u8]) -> (r: String)
    requires
        expiry_computable(now, lifetime),
    ensures
        r@ == hs256_token_of(sub, email@, is_admin, expiry_of(now, lifetime), secret@),
{
    let exp = token_expiry(now, lifetime);
    issue_token(sub, email, is_admin, exp, secret)
}

/// The configured lifetime is the setting's number, whatever its size,
/// whenever the setting with its underscores dropped reads as one; the
/// default is used only when it is absent or does not read as a number.
pub proof fn lemma_configured_lifetime_used(s: Seq<char>, n: u64)
    ensures
        parse_u64_spec(without_underscores(s)) == Some(n) ==> jwt_expiration_of(Some(s)) == n,
        parse_u64_spec(without_underscores(s)) is None ==> jwt_expiration_of(Some(s))
            == DEFAULT_JWT_EXPIRATION,
        jwt_expiration_of(None) == DEFAULT_JWT_EXPIRATION,
{
}

} // verus!
