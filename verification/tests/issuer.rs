//! Tests of the credential issuer: minting, verification, expiry.

use base64::Engine;
use ssot_core::errors::ApiError;
use ssot_core::token::{create_jwt, current_unix_time, decode_jwt, expiry_for, TOKEN_VALIDITY_SECS};

// The test key pair, as base64 of DER: the private half in PKCS#8 form, the
// public half as the uncompressed curve point.
const PRIV_PKCS8_B64: &str = "MIGHAgEAMBMGByqGSM49AgEGCCqGSM49AwEHBG0wawIBAQQgB/hO4130gkngVCHa1FXGDAq9rD8EHkADqtQTAGCy9AihRANCAARKshyr4TUkN5CwaGLtic98RAbOzgHbBBArG1NyDgqiZeMHfUB0Oh02ki5yubpbzl6dq6xBvAJw8afEFitzyxOC";

const PUB_POINT_B64: &str = "BEqyHKvhNSQ3kLBoYu2Jz3xEBs7OAdsEECsbU3IOCqJl4wd9QHQ6HTaSLnK5ulvOXp2rrEG8AnDxp8QWK3PLE4I=";

const T0: u64 = 1_700_000_000;

fn signing_key() -> jsonwebtoken::EncodingKey {
    let der = base64::prelude::BASE64_STANDARD.decode(PRIV_PKCS8_B64).unwrap();
    jsonwebtoken::EncodingKey::from_ec_der(&der)
}

fn verifying_key() -> jsonwebtoken::DecodingKey {
    let point = base64::prelude::BASE64_STANDARD.decode(PUB_POINT_B64).unwrap();
    jsonwebtoken::DecodingKey::from_ec_der(&point)
}

#[test]
fn validity_window_is_five_minutes() {
    assert_eq!(TOKEN_VALIDITY_SECS, 300);
    assert_eq!(expiry_for(T0), Ok(T0 + 300));
}

#[test]
fn expiry_past_clock_range_is_a_server_fault() {
    assert_eq!(expiry_for(u64::MAX), Err(ApiError::ServerError));
    assert_eq!(expiry_for(u64::MAX - 300), Ok(u64::MAX));
    assert_eq!(expiry_for(u64::MAX - 299), Err(ApiError::ServerError));
}

#[test]
fn minted_token_carries_subject_and_expiry() {
    let subject = "3f9d1c6a-d05c-4c3b-8f2e-000000000001".to_string();
    let jwt = create_jwt(&subject, T0, &signing_key()).unwrap();
    let claims = decode_jwt(&jwt, T0 + 100, &verifying_key()).unwrap();
    assert_eq!(claims.sub, subject);
    assert_eq!(claims.exp, T0 + 300);
}

#[test]
fn token_rejected_at_and_after_expiry() {
    let subject = "u-1".to_string();
    let jwt = create_jwt(&subject, T0, &signing_key()).unwrap();
    assert!(decode_jwt(&jwt, T0 + 299, &verifying_key()).is_ok());
    assert_eq!(
        decode_jwt(&jwt, T0 + 300, &verifying_key()).unwrap_err(),
        ApiError::AuthorizationError
    );
    assert_eq!(
        decode_jwt(&jwt, T0 + 301, &verifying_key()).unwrap_err(),
        ApiError::AuthorizationError
    );
}

#[test]
fn malformed_and_forged_tokens_rejected_alike() {
    let dec = verifying_key();
    assert_eq!(
        decode_jwt(&"not a token".to_string(), T0, &dec).unwrap_err(),
        ApiError::AuthorizationError
    );
    // Token signed under a different key pair: a signature mismatch.
    let other_priv = jsonwebtoken::EncodingKey::from_secret(b"wrong family");
    assert_eq!(
        create_jwt(&"u-1".to_string(), T0, &other_priv).unwrap_err(),
        ApiError::ServerError
    );
    // Tamper with a valid token's payload.
    let jwt = create_jwt(&"u-1".to_string(), T0, &signing_key()).unwrap();
    let mut tampered = jwt.clone();
    tampered.replace_range(0..1, if jwt.starts_with('e') { "f" } else { "e" });
    assert_eq!(
        decode_jwt(&tampered, T0, &dec).unwrap_err(),
        ApiError::AuthorizationError
    );
}

#[test]
fn clock_reads_a_present_day_time() {
    let now = current_unix_time().unwrap();
    assert!(now > 1_600_000_000);
}

#[test]
fn error_messages_name_their_kind() {
    assert_eq!(ApiError::InvalidRequest.message(), "invalid request");
    assert_eq!(ApiError::AuthorizationError.message(), "authorization error");
    assert_eq!(ApiError::NotFound.message(), "not found");
    assert_eq!(ApiError::ServerError.message(), "server error");
}

#[test]
fn config_defaults() {
    assert_eq!(ssot_core::config::default_https(), false);
    assert_eq!(ssot_core::config::default_maxconn(), 10);
    assert_eq!(ssot_core::config::default_smtp_port(), 587);
    assert_eq!(ssot_core::config::default_smtp_tls(), true);
}
