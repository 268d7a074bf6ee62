//! The credential issuer: short-lived signed identity tokens.
//!
//! A token carries a subject — the customer id, as text — and an expiry five
//! minutes after issue, and is signed with an ES256 key pair loaded once at
//! process start. Signing and signature checking go through the
//! `jsonwebtoken` crate; the expiry comparison is made here, by the
//! verifier's clock and with no leeway, and a signature failure is reported
//! before the expiry is even looked at.

use vstd::prelude::*;
use crate::errors::ApiError;

verus! {

/// Seconds a credential token stays valid after issue: the five-minute
/// window bounds the exposure of an intercepted magic link.
pub const TOKEN_VALIDITY_SECS: u64 = 300;

/// The claims a credential token carries. Ephemeral: it exists only in
/// transit, inside the signed token text.
#[derive(Debug)]
pub struct Claims {
    /// The subject: a customer id, as text.
    pub sub: String,
    /// Expiry, in seconds since the Unix epoch.
    pub exp: u64,
}

/// The mathematical value of `Claims`.
pub struct ClaimsV {
    /// The subject.
    pub sub: Seq<char>,
    /// Expiry, in seconds since the Unix epoch.
    pub exp: u64,
}

impl View for Claims {
    type V = ClaimsV;

    open spec fn view(&self) -> ClaimsV {
        ClaimsV { sub: self.sub@, exp: self.exp }
    }
}

impl DeepView for Claims {
    type V = ClaimsV;

    open spec fn deep_view(&self) -> ClaimsV {
        self@
    }
}

#[verifier::external_type_specification]
#[verifier::external_body]
/// The signing half of the process's key pair, from `jsonwebtoken`. Opaque:
/// loaded once at startup from a PEM file, then only handed to `create_jwt`.
pub struct ExEncodingKey(jsonwebtoken::EncodingKey);

#[verifier::external_type_specification]
#[verifier::external_body]
/// The verifying half of the process's key pair, from `jsonwebtoken`.
pub struct ExDecodingKey(jsonwebtoken::DecodingKey);

/// The expiry of a token issued at `now`. Exceeding the clock's range is an
/// internal fault.
pub fn expiry_for(now: u64) -> (r: Result<u64, ApiError>)
    ensures
        now + TOKEN_VALIDITY_SECS <= u64::MAX ==> r == Ok::<u64, ApiError>(
            (now + TOKEN_VALIDITY_SECS) as u64,
        ),
        now + TOKEN_VALIDITY_SECS > u64::MAX ==> r == Err::<u64, ApiError>(ApiError::ServerError),
{
    match now.checked_add(TOKEN_VALIDITY_SECS) {
        Some(e) => Ok(e),
        None => Err(ApiError::ServerError),
    }
}

/// Relies on `jsonwebtoken::encode`: builds the compact token whose claims
/// are exactly `sub` and `exp` and signs it under the ES256 key. The
/// signature is randomized, so nothing is promised of the text.
#[verifier::external_body]
fn sign_claims(sub: &str, exp: u64, key: &jsonwebtoken::EncodingKey) -> (r: Option<String>) {
    let mut claims = serde_json::Map::new();
    claims.insert("sub".to_owned(), serde_json::Value::String(sub.to_owned()));
    claims.insert("exp".to_owned(), serde_json::Value::from(exp));
    let header = jsonwebtoken::Header::new(jsonwebtoken::Algorithm::ES256);
    jsonwebtoken::encode(&header, &serde_json::Value::Object(claims), key).ok()
}

/// Relies on `jsonwebtoken::decode`: checks the compact token's ES256
/// signature and hands back its `sub` and `exp` claims. Expiry validation is
/// switched off here on purpose — the core compares the expiry itself, with
/// no leeway — so the signature alone decides.
#[verifier::external_body]
pub(crate) fn verify_signature(token: &str, key: &jsonwebtoken::DecodingKey) -> (r: Option<
    Claims,
>) {
    let mut validation = jsonwebtoken::Validation::new(jsonwebtoken::Algorithm::ES256);
    validation.validate_exp = false;
    match jsonwebtoken::decode::<serde_json::Value>(token, key, &validation) {
        Ok(data) => {
            let sub = data.claims.get("sub").and_then(|v| v.as_str());
            let exp = data.claims.get("exp").and_then(|v| v.as_u64());
            match (sub, exp) {
                (Some(s), Some(e)) => Some(Claims { sub: s.to_owned(), exp: e }),
                _ => None,
            }
        },
        Err(_) => None,
    }
}

/// Relies on `chrono::Utc::now`: seconds since the Unix epoch by the
/// process's clock. Nothing is promised of the value.
#[verifier::external_body]
fn unix_now() -> (r: i64) {
    chrono::Utc::now().timestamp()
}

/// The current time, in seconds since the Unix epoch, for expiry
/// computation. A clock answering from before the epoch is an internal
/// fault.
pub fn current_unix_time() -> (r: Result<u64, ApiError>)
    ensures
        r matches Err(e) ==> e == ApiError::ServerError,
{
    let t = unix_now();
    if t < 0 {
        Err(ApiError::ServerError)
    } else {
        Ok(t as u64)
    }
}

/// Mint a token for `subject` at time `now`: claims `{sub: subject,
/// exp: now + 5 min}`, signed with the process's private key. Fails only as
/// `ServerError` — a clock-range or signing fault is a server fault, never a
/// user-input fault.
pub fn create_jwt(subject: &String, now: u64, key: &jsonwebtoken::EncodingKey) -> (r: Result<
    String,
    ApiError,
>)
    ensures
        now + TOKEN_VALIDITY_SECS > u64::MAX ==> r == Err::<String, ApiError>(
            ApiError::ServerError,
        ),
        r matches Err(e) ==> e == ApiError::ServerError,
{
    let exp = match expiry_for(now) {
        Ok(e) => e,
        Err(e) => {
            return Err(e);
        },
    };
    match sign_claims(subject.as_str(), exp, key) {
        Some(t) => Ok(t),
        None => Err(ApiError::ServerError),
    }
}

/// Check `token` at time `now`: the signature against the process's public
/// key first, then `exp > now`, with no leeway. Malformed encoding, a
/// signature mismatch and an expired token all collapse to the same
/// `AuthorizationError`, denying an attacker a verification oracle. A token
/// is never accepted past its expiry: accepted claims satisfy `exp > now`.
pub fn decode_jwt(token: &String, now: u64, key: &jsonwebtoken::DecodingKey) -> (r: Result<
    Claims,
    ApiError,
>)
    ensures
        r matches Ok(c) ==> c@.exp > now,
        r matches Err(e) ==> e == ApiError::AuthorizationError,
{
    match verify_signature(token.as_str(), key) {
        Some(c) => {
            if c.exp > now {
                Ok(c)
            } else {
                Err(ApiError::AuthorizationError)
            }
        },
        None => Err(ApiError::AuthorizationError),
    }
}

} // verus!
