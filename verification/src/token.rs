//! Signed, time-limited tokens: compact claims (subject, expiry, token
//! class) signed with a shared secret key. Two fixed policies issue
//! short-lived access tokens and long-lived refresh tokens; decoding
//! verifies the signature and the expiry.

use jsonwebtoken::errors::ErrorKind;
use jsonwebtoken::{Algorithm, DecodingKey, Validation};
use serde_json::Value;
use std::collections::HashSet;
use vstd::prelude::*;

verus! {

/// Lifetime of an access token: 20 minutes.
pub const SECONDS_IN_20_MINUTES: u64 = 20 * 60;

/// Lifetime of a refresh token: 7 days.
pub const SECONDS_IN_1_WEEK: u64 = 7 * 24 * 60 * 60;

/// Names the signed token that the token encoder produces for a key, an
/// expiry, a subject and a token-class flag. The token is a deterministic
/// function of those alone; nothing more is assumed of its shape.
pub uninterp spec fn jwt_of(key: Seq<char>, exp: u64, sub: Seq<char>, refresh: bool) -> Seq<char>;

/// The claims carried inside a signed token.
#[derive(Debug)]
pub struct Claims {
    /// The expiry time, as seconds since the Unix epoch.
    pub exp: u64,
    /// Subject: the username.
    pub sub: String,
    /// Whether the token is a refresh token.
    pub refresh: bool,
}

/// Why decoding a token failed.
#[derive(Clone, Copy, PartialEq, Eq, Structural, Debug)]
pub enum DecodeError {
    /// The token cannot be parsed at all, or its claims are not of the
    /// expected shape.
    Malformed,
    /// The signature does not verify under the given key.
    InvalidSignature,
    /// The expiry time has passed.
    Expired,
}

/// Saturating addition on `u64`, the arithmetic used to compute an expiry
/// from the clock and a lifetime.
pub open spec fn sat_add64(a: u64, b: u64) -> u64 {
    if a + b <= u64::MAX {
        (a + b) as u64
    } else {
        u64::MAX
    }
}

/// Relies on `jsonwebtoken::encode` with the default header (HS256) and an
/// HMAC key made of the raw secret bytes: the token is a deterministic,
/// never-empty function of the key and the claims, and HMAC signing of a
/// JSON object cannot fail.
#[verifier::external_body]
fn jwt_encode(key: &str, exp: u64, sub: &str, refresh: bool) -> (r: String)
    ensures
        r@ == jwt_of(key@, exp, sub@, refresh),
        r@.len() > 0,
{
    let mut claims = serde_json::Map::new();
    claims.insert("exp".to_string(), serde_json::Value::from(exp));
    claims.insert("sub".to_string(), serde_json::Value::from(sub));
    claims.insert("refresh".to_string(), serde_json::Value::from(refresh));
    jsonwebtoken::encode(
        &jsonwebtoken::Header::default(),
        &serde_json::Value::Object(claims),
        &jsonwebtoken::EncodingKey::from_secret(key.as_bytes()),
    ).expect("HMAC signing of a JSON object cannot fail")
}

/// Whether a decode result returns, for any token the encoder made under
/// this key, exactly the claims that were encoded.
pub open spec fn returns_encoded_claims(
    r: Result<Claims, DecodeError>,
    key: Seq<char>,
    token: Seq<char>,
) -> bool {
    forall|exp: u64, sub: Seq<char>, refresh: bool|
        token == #[trigger] jwt_of(key, exp, sub, refresh) ==> (r matches Ok(c) && c.exp == exp
            && c.sub@ == sub && c.refresh == refresh)
}

/// Names what the token decoder (signature check and claims extraction,
/// expiry not yet judged) returns for a key and a token string: the claims
/// `(exp, sub, refresh)`, or how decoding failed. A deterministic function
/// of the two alone, never `Expired`.
pub uninterp spec fn jwt_claims_of(key: Seq<char>, token: Seq<char>) -> Result<
    (u64, Seq<char>, bool),
    DecodeError,
>;

/// What decoding a token at the instant `now` yields: the decoder's claims
/// if they have not yet expired (exactly at `exp` counts as expired), the
/// decoder's own failure otherwise.
pub open spec fn decode_outcome(key: Seq<char>, token: Seq<char>, now: u64) -> Result<
    (u64, Seq<char>, bool),
    DecodeError,
> {
    match jwt_claims_of(key, token) {
        Ok(claims) => if claims.0 > now {
            Ok(claims)
        } else {
            Err(DecodeError::Expired)
        },
        Err(e) => Err(e),
    }
}

/// Whether a decode result is exactly what the named decoder function gives
/// for this key and token: the same claims on success, the same failure
/// otherwise, and never `Expired`.
pub open spec fn reflects_decoder(
    r: Result<Claims, DecodeError>,
    key: Seq<char>,
    token: Seq<char>,
) -> bool {
    &&& (r matches Ok(c) ==> jwt_claims_of(key, token) == Ok::<_, DecodeError>(
        (c.exp, c.sub@, c.refresh),
    ))
    &&& (r matches Err(e) ==> jwt_claims_of(key, token) == Err::<(u64, Seq<char>, bool), _>(e)
        && e != DecodeError::Expired)
}

/// Relies on `jsonwebtoken::decode` with HS256 and expiry validation turned
/// off: a deterministic function of the key and the token — the signature is
/// verified and the claims handed back unchanged, so a token made by
/// `jsonwebtoken::encode` under the same key yields exactly the claims that
/// were encoded; a signature mismatch is reported as such, and expiry is
/// never judged here.
#[verifier::external_body]
fn jwt_decode(key: &str, token: &str) -> (r: Result<Claims, DecodeError>)
    ensures
        r is Ok <==> jwt_claims_of(key@, token@) is Ok,
        reflects_decoder(r, key@, token@),
        returns_encoded_claims(r, key@, token@),
{
    let mut v = Validation::new(Algorithm::HS256);
    v.validate_exp = false;
    v.required_spec_claims = HashSet::new();
    let k = DecodingKey::from_secret(key.as_bytes());
    let c = match jsonwebtoken::decode::<Value>(token, &k, &v) {
        Ok(d) => d.claims,
        Err(e) => return Err(match e.kind() {
            ErrorKind::InvalidSignature => DecodeError::InvalidSignature,
            _ => DecodeError::Malformed,
        }),
    };
    match (c["exp"].as_u64(), c["sub"].as_str(), c["refresh"].as_bool()) {
        (Some(exp), Some(sub), Some(refresh)) => Ok(Claims { exp, sub: sub.to_string(), refresh }),
        _ => Err(DecodeError::Malformed),
    }
}

/// Relies on `std::time::SystemTime::now`: the system clock, as seconds
/// since the Unix epoch (0 if the clock stands before it). Nothing is
/// assumed of the value.
#[verifier::external_body]
pub(crate) fn now_unix_seconds() -> u64 {
    match std::time::SystemTime::now().duration_since(std::time::UNIX_EPOCH) {
        Ok(d) => d.as_secs(),
        Err(_) => 0,
    }
}

/// Signs the claims `{exp: now + expire_seconds, sub: username, refresh}`
/// with the key, taking the issuance instant as an argument.
pub fn encode_jwt_at(
    key: &str,
    username: &str,
    expire_seconds: u64,
    refresh: bool,
    now: u64,
) -> (token: String)
    ensures
        token@ == jwt_of(key@, sat_add64(now, expire_seconds), username@, refresh),
        token@.len() > 0,
{
    jwt_encode(key, now.saturating_add(expire_seconds), username, refresh)
}

/// Signs the claims for an expiry `expire_seconds` from the current clock:
/// there is an issuance instant from which the expiry lies exactly
/// `expire_seconds` ahead.
pub fn encode_jwt(key: &str, username: &str, expire_seconds: u64, refresh: bool) -> (token: String)
    ensures
        exists|t: u64|
            token@ == #[trigger] jwt_of(key@, sat_add64(t, expire_seconds), username@, refresh),
        token@.len() > 0,
{
    let now = now_unix_seconds();
    encode_jwt_at(key, username, expire_seconds, refresh, now)
}

/// Issues a refresh-class token for the subject with the fixed refresh
/// policy: its expiry lies one week past its issuance instant.
pub fn generate_jwt_refresh_token(key: &str, username: &str) -> (token: String)
    ensures
        exists|t: u64|
            token@ == #[trigger] jwt_of(key@, sat_add64(t, SECONDS_IN_1_WEEK), username@, true),
        token@.len() > 0,
{
    encode_jwt(key, username, SECONDS_IN_1_WEEK, true)
}

/// Issues an access-class token for the subject with the fixed access
/// policy: its expiry lies 20 minutes past its issuance instant.
pub fn generate_jwt_access_token(key: &str, username: &str) -> (token: String)
    ensures
        exists|t: u64|
            token@ == #[trigger] jwt_of(key@, sat_add64(t, SECONDS_IN_20_MINUTES), username@, false),
        token@.len() > 0,
{
    encode_jwt(key, username, SECONDS_IN_20_MINUTES, false)
}

/// Decodes and checks a token against the instant `now`: the signature must
/// verify under the key, and the token is expired from its expiry instant
/// onward (exactly at `exp` counts as expired). A token the encoder made
/// under this key comes back with its claims unchanged, or as `Expired`.
pub fn decode_jwt_at(key: &str, token: &str, now: u64) -> (r: Result<Claims, DecodeError>)
    ensures
        r matches Ok(c) ==> c.exp > now,
        r matches Ok(c) ==> decode_outcome(key@, token@, now) == Ok::<_, DecodeError>(
            (c.exp, c.sub@, c.refresh),
        ),
        r matches Err(e) ==> decode_outcome(key@, token@, now) == Err::<(u64, Seq<char>, bool), _>(
            e,
        ),
        forall|exp: u64, sub: Seq<char>, refresh: bool|
            token@ == #[trigger] jwt_of(key@, exp, sub, refresh) ==> if exp > now {
                r matches Ok(c) && c.exp == exp && c.sub@ == sub && c.refresh == refresh
            } else {
                r == Err::<Claims, DecodeError>(DecodeError::Expired)
            },
{
    match jwt_decode(key, token) {
        Ok(c) => {
            if c.exp <= now {
                Err(DecodeError::Expired)
            } else {
                Ok(c)
            }
        },
        Err(e) => Err(e),
    }
}

/// Decodes and checks a token against the current clock. A token the
/// encoder made under this key either comes back with its claims unchanged
/// or is reported expired; it can fail no other way.
pub fn decode_jwt(key: &str, token: &str) -> (r: Result<Claims, DecodeError>)
    ensures
        jwt_claims_of(key@, token@) matches Err(e) ==> r == Err::<Claims, DecodeError>(e),
        jwt_claims_of(key@, token@) matches Ok(claims) ==> ((r matches Ok(c) && c.exp == claims.0
            && c.sub@ == claims.1 && c.refresh == claims.2) || r == Err::<Claims, DecodeError>(
            DecodeError::Expired,
        )),
        forall|exp: u64, sub: Seq<char>, refresh: bool|
            token@ == #[trigger] jwt_of(key@, exp, sub, refresh) ==> (r matches Ok(c) && c.exp
                == exp && c.sub@ == sub && c.refresh == refresh) || r == Err::<
                Claims,
                DecodeError,
            >(DecodeError::Expired),
{
    let now = now_unix_seconds();
    decode_jwt_at(key, token, now)
}

} // verus!
