//! Tests of the single-sign-on flow: login, registration, exchange, session.

use ssot_core::directory::Directory;
use ssot_core::errors::ApiError;
use ssot_core::flow::{
    exchange, exchange_claims, login_claims, logout, magic_link, request_login,
    request_registration, whoami, EmailSso, JwtToken, Specific,
};
use ssot_core::session::SessionState;
use ssot_core::token::Claims;
use base64::Engine;

// The test key pair, as base64 of DER: the private half in PKCS#8 form, the
// public half as the uncompressed curve point.
const PRIV_PKCS8_B64: &str = "MIGHAgEAMBMGByqGSM49AgEGCCqGSM49AwEHBG0wawIBAQQgB/hO4130gkngVCHa1FXGDAq9rD8EHkADqtQTAGCy9AihRANCAARKshyr4TUkN5CwaGLtic98RAbOzgHbBBArG1NyDgqiZeMHfUB0Oh02ki5yubpbzl6dq6xBvAJw8afEFitzyxOC";

const PUB_POINT_B64: &str = "BEqyHKvhNSQ3kLBoYu2Jz3xEBs7OAdsEECsbU3IOCqJl4wd9QHQ6HTaSLnK5ulvOXp2rrEG8AnDxp8QWK3PLE4I=";

const T0: u64 = 1_700_000_000;

fn signing_key() -> jsonwebtoken::EncodingKey {
    let der = base64::prelude::BASE64_STANDARD.decode(PRIV_PKCS8_B64).unwrap();
    jsonwebtoken::EncodingKey::from_ec_der(&der)
}

fn verifying_key() -> jsonwebtoken::DecodingKey {
    let point = base64::prelude::BASE64_STANDARD.decode(PUB_POINT_B64).unwrap();
    jsonwebtoken::DecodingKey::from_ec_der(&point)
}

fn directory_with_alice() -> Directory {
    let mut dir = Directory::new();
    dir.create("u-alice".to_string(), "alice@example.com".to_string()).unwrap();
    dir
}

#[test]
fn login_then_exchange_authenticates_alice() {
    // Email "alice@example.com" maps to customer id "u-alice". A login
    // request at T0 yields a link whose token expires at T0 + 300; an
    // exchange at T0 + 100 establishes the session for that id; a second,
    // independent exchange at T0 + 301 fails and touches nothing.
    let dir = directory_with_alice();
    let sess = SessionState::anonymous();
    let base = "https://auth.example.com".to_string();
    let email = "alice@example.com".to_string();

    let mail = request_login(&dir, &sess, &email, T0, &base, &signing_key()).unwrap();
    assert_eq!(mail.recipient, email);
    assert_eq!(
        mail.link,
        format!("https://auth.example.com/csso?jwt={}", mail.encoded_jwt)
    );

    let mut sess1 = SessionState::anonymous();
    let user = exchange(&dir, &mut sess1, &mail.encoded_jwt, T0 + 100, &verifying_key()).unwrap();
    assert_eq!(user, "u-alice");
    assert_eq!(sess1.user_id.as_deref(), Some("u-alice"));
    assert_eq!(whoami(&sess1).unwrap(), "u-alice");

    let mut sess2 = SessionState::anonymous();
    let late = exchange(&dir, &mut sess2, &mail.encoded_jwt, T0 + 301, &verifying_key());
    assert_eq!(late.unwrap_err(), ApiError::AuthorizationError);
    assert!(sess2.user_id.is_none());
}

#[test]
fn exchange_at_expiry_instant_fails() {
    let dir = directory_with_alice();
    let sess = SessionState::anonymous();
    let base = "https://sso.example.com".to_string();
    let mail =
        request_login(&dir, &sess, &"alice@example.com".to_string(), T0, &base, &signing_key())
            .unwrap();
    let mut sess1 = SessionState::anonymous();
    let r = exchange(&dir, &mut sess1, &mail.encoded_jwt, T0 + 300, &verifying_key());
    assert_eq!(r.unwrap_err(), ApiError::AuthorizationError);
    assert!(sess1.user_id.is_none());
}

#[test]
fn encoded_token_is_base64_of_a_compact_jwt() {
    let dir = directory_with_alice();
    let sess = SessionState::anonymous();
    let base = "https://sso.example.com".to_string();
    let mail =
        request_login(&dir, &sess, &"alice@example.com".to_string(), T0, &base, &signing_key())
            .unwrap();
    let raw = base64::prelude::BASE64_STANDARD.decode(&mail.encoded_jwt).unwrap();
    let token_text = String::from_utf8(raw).unwrap();
    assert_eq!(token_text.split('.').count(), 3);
    assert_ne!(token_text, mail.encoded_jwt);
}

#[test]
fn login_with_unknown_email_is_not_found() {
    let dir = directory_with_alice();
    let sess = SessionState::anonymous();
    let r = login_claims(&dir, &sess, &"bob@example.com".to_string(), T0);
    assert_eq!(r.unwrap_err(), ApiError::NotFound);
}

#[test]
fn login_with_malformed_email_is_invalid() {
    let dir = directory_with_alice();
    let sess = SessionState::anonymous();
    let base = "https://sso.example.com".to_string();
    let r = request_login(&dir, &sess, &"not-an-email".to_string(), T0, &base, &signing_key());
    assert_eq!(r.unwrap_err(), ApiError::InvalidRequest);
}

#[test]
fn login_claims_carry_identity_and_expiry() {
    let dir = directory_with_alice();
    let sess = SessionState::anonymous();
    let c = login_claims(&dir, &sess, &"alice@example.com".to_string(), T0).unwrap();
    assert_eq!(c.sub, "u-alice");
    assert_eq!(c.exp, T0 + 300);
}

#[test]
fn operations_refused_while_logged_in() {
    let dir = directory_with_alice();
    let mut logged = SessionState::anonymous();
    logged.establish("u-alice".to_string());
    let base = "https://sso.example.com".to_string();

    let r = request_login(&dir, &logged, &"alice@example.com".to_string(), T0, &base, &signing_key());
    assert_eq!(r.unwrap_err(), ApiError::InvalidRequest);

    let mut dir2 = directory_with_alice();
    let r = request_registration(&mut dir2, &logged, &"bob@example.com".to_string(), T0, &base, &signing_key());
    assert_eq!(r.unwrap_err(), ApiError::InvalidRequest);
    assert_eq!(dir2.len(), 1);

    // A valid token does not help: the session stays exactly as it was.
    let anon = SessionState::anonymous();
    let mail = request_login(&dir, &anon, &"alice@example.com".to_string(), T0, &base, &signing_key()).unwrap();
    let r = exchange(&dir, &mut logged, &mail.encoded_jwt, T0 + 1, &verifying_key());
    assert_eq!(r.unwrap_err(), ApiError::InvalidRequest);
    assert_eq!(logged.user_id.as_deref(), Some("u-alice"));
}

#[test]
fn exchange_rejects_garbage() {
    let dir = directory_with_alice();
    let mut sess = SessionState::anonymous();
    let r = exchange(&dir, &mut sess, &"%%%not-base64%%%".to_string(), T0, &verifying_key());
    assert_eq!(r.unwrap_err(), ApiError::AuthorizationError);
    // Valid base64 of text that is no token.
    let mut sess = SessionState::anonymous();
    let r = exchange(&dir, &mut sess, &"aGVsbG8=".to_string(), T0, &verifying_key());
    assert_eq!(r.unwrap_err(), ApiError::AuthorizationError);
    assert!(sess.user_id.is_none());
}

#[test]
fn exchange_rejects_subject_no_longer_in_directory() {
    let dir = directory_with_alice();
    let mut sess = SessionState::anonymous();
    let claims = Claims { sub: "u-gone".to_string(), exp: T0 + 300 };
    let r = exchange_claims(&dir, &mut sess, Some(claims), T0);
    assert_eq!(r.unwrap_err(), ApiError::AuthorizationError);
    assert!(sess.user_id.is_none());
}

#[test]
fn registration_creates_customer_and_mails_link() {
    let mut dir = directory_with_alice();
    let sess = SessionState::anonymous();
    let base = "https://sso.example.com".to_string();
    let email = "bob@example.com".to_string();
    let mail = request_registration(&mut dir, &sess, &email, T0, &base, &signing_key()).unwrap();
    assert_eq!(mail.recipient, email);
    assert_eq!(dir.len(), 2);
    let bob = dir.find_by_email(&email).unwrap();
    assert_eq!(bob.email, email);
    // The generated id is a hyphenated UUID: 36 characters.
    assert_eq!(bob.id.len(), 36);

    // The mailed token authenticates the new customer.
    let mut sess1 = SessionState::anonymous();
    let user = exchange(&dir, &mut sess1, &mail.encoded_jwt, T0 + 10, &verifying_key()).unwrap();
    assert_eq!(user, bob.id);

    // Registering the same email again is rejected; the record stays.
    let r = request_registration(&mut dir, &sess, &email, T0, &base, &signing_key());
    assert_eq!(r.unwrap_err(), ApiError::InvalidRequest);
    assert_eq!(dir.len(), 2);
}

#[test]
fn whoami_and_logout() {
    let mut sess = SessionState::anonymous();
    assert_eq!(whoami(&sess).unwrap_err(), ApiError::AuthorizationError);
    sess.establish("u-alice".to_string());
    assert_eq!(whoami(&sess).unwrap(), "u-alice");
    logout(&mut sess);
    assert!(sess.user_id.is_none());
    assert_eq!(whoami(&sess).unwrap_err(), ApiError::AuthorizationError);
    // Idempotent.
    logout(&mut sess);
    assert!(sess.user_id.is_none());
}

#[test]
fn magic_link_shape() {
    let link = magic_link("https://sso.example.com", "QUJD");
    assert_eq!(link, "https://sso.example.com/csso?jwt=QUJD");
}

#[test]
fn request_payloads_carry_their_field() {
    let e = EmailSso { email: "alice@example.com".to_string() };
    assert_eq!(e.email, "alice@example.com");
    let j = JwtToken { jwt: "QUJD".to_string() };
    assert_eq!(j.jwt, "QUJD");
    let s = Specific { uuid: "host-1".to_string() };
    assert_eq!(s.uuid, "host-1");
}
