//! The single-sign-on flow controller.
//!
//! Three externally observable operations drive the `Anonymous →
//! LinkRequested → Authenticated` machine: a login or registration request
//! resolves (or creates) the customer and yields the magic-link mail to
//! dispatch; an exchange turns the link's token into a session. The
//! `LinkRequested` state has no server-side record — the signed token itself
//! carries it. Every operation takes the per-request session as an explicit
//! value.

use vstd::prelude::*;
use vstd::string::StringExecFns;
use crate::directory::{customer_with_email, dir_wf, has_email, has_id, CustomerV, Directory};
use crate::errors::ApiError;
use crate::session::SessionState;
use crate::token::{create_jwt, verify_signature, Claims, ClaimsV, TOKEN_VALIDITY_SECS};

verus! {

/// Request body of the login and registration operations.
#[derive(Debug)]
pub struct EmailSso {
    /// The email the magic link is requested for.
    pub email: String,
}

/// Query parameter of the exchange operation.
#[derive(Debug)]
pub struct JwtToken {
    /// The signed token, base64-encoded.
    pub jwt: String,
}

/// Query parameter of the host-binding operation.
#[derive(Debug)]
pub struct Specific {
    /// The host's uuid.
    pub uuid: String,
}

/// What the standard base64 encoding of the text `s` is; a name for the
/// outside encoder's result.
pub uninterp spec fn b64_of(s: Seq<char>) -> Seq<char>;

/// What decoding `s` as standard base64 followed by UTF-8 validation gives;
/// a name for the outside decoder's result.
pub uninterp spec fn b64_unwrap(s: Seq<char>) -> Option<Seq<char>>;

/// Whether `s` is a well-formed mailbox address; a name for the outside
/// parser's verdict.
pub uninterp spec fn mailbox_ok(s: Seq<char>) -> bool;

/// Relies on base64's standard engine: encodes the bytes of `s`.
#[verifier::external_body]
fn b64_encode(s: &str) -> (r: String)
    ensures
        r@ == b64_of(s@),
{
    base64::Engine::encode(&base64::prelude::BASE64_STANDARD, s)
}

/// Relies on base64's standard engine, then UTF-8 validation: the decoded
/// text, when `s` is valid base64 of valid UTF-8.
#[verifier::external_body]
fn b64_decode(s: &str) -> (r: Option<String>)
    ensures
        r.deep_view() == b64_unwrap(s@),
{
    match base64::Engine::decode(&base64::prelude::BASE64_STANDARD, s) {
        Ok(bytes) => String::from_utf8(bytes).ok(),
        Err(_) => None,
    }
}

/// Relies on lettre's `Mailbox` parser: whether `s` is a well-formed
/// mailbox address.
#[verifier::external_body]
fn mailbox_valid(s: &str) -> (r: bool)
    ensures
        r == mailbox_ok(s@),
{
    s.parse::<lettre::message::Mailbox>().is_ok()
}

/// Relies on uuid: a fresh random version-4 UUID in the hyphenated text
/// form, 36 characters. Nothing more is promised of a random value.
#[verifier::external_body]
fn new_customer_id() -> (r: String)
    ensures
        r@.len() == 36,
{
    uuid::Uuid::new_v4().to_string()
}

/// The shape of the magic link: `{base}/csso?jwt={encoded}`.
pub open spec fn magic_link_of(base: Seq<char>, encoded: Seq<char>) -> Seq<char> {
    base + "/csso?jwt="@ + encoded
}

/// Build the magic link carrying an encoded token.
pub fn magic_link(base: &str, encoded: &str) -> (r: String)
    ensures
        r@ == magic_link_of(base@, encoded@),
{
    let mut s = base.to_owned();
    s.append("/csso?jwt=");
    s.append(encoded);
    s
}

/// The mail a login or registration request asks the dispatch collaborator
/// to send.
#[derive(Debug)]
pub struct SsoMail {
    /// The recipient: the address the request named.
    pub recipient: String,
    /// The signed token, base64-encoded, as it rides inside the link.
    pub encoded_jwt: String,
    /// The full magic link.
    pub link: String,
}

/// What a login request decides, before any signing: the claims to mint, or
/// the error. An existing session and a malformed address are the caller's
/// fault; an unknown email is `NotFound` — login never creates an identity;
/// a clock out of range is a server fault.
pub open spec fn login_outcome(
    dir: Seq<CustomerV>,
    sess: Option<Seq<char>>,
    email: Seq<char>,
    now: u64,
) -> Result<ClaimsV, ApiError> {
    if sess is Some {
        Err(ApiError::InvalidRequest)
    } else if !mailbox_ok(email) {
        Err(ApiError::InvalidRequest)
    } else if !has_email(dir, email) {
        Err(ApiError::NotFound)
    } else if now + TOKEN_VALIDITY_SECS > u64::MAX {
        Err(ApiError::ServerError)
    } else {
        Ok(
            ClaimsV {
                sub: customer_with_email(dir, email).id,
                exp: (now + TOKEN_VALIDITY_SECS) as u64,
            },
        )
    }
}

/// The decision core of a login request: resolve the customer by email and
/// mint the claims the token will carry.
pub fn login_claims(dir: &Directory, session: &SessionState, email: &String, now: u64) -> (r:
    Result<Claims, ApiError>)
    requires
        dir.wf(),
    ensures
        match r {
            Ok(c) => login_outcome(dir@, session@, email@, now) == Ok::<ClaimsV, ApiError>(c@),
            Err(e) => login_outcome(dir@, session@, email@, now) == Err::<ClaimsV, ApiError>(e),
        },
{
    if !session.is_anonymous() {
        return Err(ApiError::InvalidRequest);
    }
    if !mailbox_valid(email.as_str()) {
        return Err(ApiError::InvalidRequest);
    }
    match dir.find_by_email(email) {
        None => Err(ApiError::NotFound),
        Some(c) => match crate::token::expiry_for(now) {
            Ok(exp) => Ok(Claims { sub: c.id, exp }),
            Err(e) => Err(e),
        },
    }
}

/// Serve a login request: with no session established and a known,
/// well-formed email, mint and sign the token, encode it, and hand back the
/// mail to dispatch. The directory is only read; the session only compared.
pub fn request_login(
    dir: &Directory,
    session: &SessionState,
    email: &String,
    now: u64,
    base_url: &String,
    key: &jsonwebtoken::EncodingKey,
) -> (r: Result<SsoMail, ApiError>)
    requires
        dir.wf(),
    ensures
        match r {
            Ok(m) => login_outcome(dir@, session@, email@, now) is Ok && m.recipient@ == email@
                && m.link@ == magic_link_of(base_url@, m.encoded_jwt@),
            Err(e) => login_outcome(dir@, session@, email@, now) == Err::<ClaimsV, ApiError>(e) || (
            login_outcome(dir@, session@, email@, now) is Ok && e == ApiError::ServerError),
        },
{
    let claims = match login_claims(dir, session, email, now) {
        Ok(c) => c,
        Err(e) => {
            return Err(e);
        },
    };
    match create_jwt(&claims.sub, now, key) {
        Ok(jwt) => {
            let encoded = b64_encode(jwt.as_str());
            let link = magic_link(base_url.as_str(), encoded.as_str());
            Ok(SsoMail { recipient: email.clone(), encoded_jwt: encoded, link })
        },
        Err(e) => Err(e),
    }
}

/// What a registration request decides before touching the directory.
/// Policy, applied uniformly: an email already registered is rejected as
/// `InvalidRequest`, like the other caller faults.
pub open spec fn registration_outcome(
    dir: Seq<CustomerV>,
    sess: Option<Seq<char>>,
    email: Seq<char>,
) -> Result<(), ApiError> {
    if sess is Some {
        Err(ApiError::InvalidRequest)
    } else if !mailbox_ok(email) {
        Err(ApiError::InvalidRequest)
    } else if has_email(dir, email) {
        Err(ApiError::InvalidRequest)
    } else {
        Ok(())
    }
}

/// Whether `new` is `old` with exactly one record for `email` appended.
pub open spec fn extends_with_email(
    old_dir: Seq<CustomerV>,
    new_dir: Seq<CustomerV>,
    email: Seq<char>,
) -> bool {
    &&& new_dir.len() == old_dir.len() + 1
    &&& new_dir.subrange(0, old_dir.len() as int) == old_dir
    &&& new_dir.last().email == email
}

/// Serve a registration request: with no session established and a fresh,
/// well-formed email, create the customer under a generated id, then mint,
/// sign and encode the token and hand back the mail to dispatch. A signing
/// or clock fault after the record was created leaves the record in place,
/// as the storage collaborator would.
pub fn request_registration(
    dir: &mut Directory,
    session: &SessionState,
    email: &String,
    now: u64,
    base_url: &String,
    key: &jsonwebtoken::EncodingKey,
) -> (r: Result<SsoMail, ApiError>)
    requires
        old(dir).wf(),
    ensures
        final(dir).wf(),
        match r {
            Ok(m) => registration_outcome(old(dir)@, session@, email@) is Ok && extends_with_email(
                old(dir)@,
                final(dir)@,
                email@,
            ) && m.recipient@ == email@ && m.link@ == magic_link_of(base_url@, m.encoded_jwt@),
            Err(e) => (registration_outcome(old(dir)@, session@, email@) == Err::<(), ApiError>(e)
                && final(dir)@ == old(dir)@) || (registration_outcome(old(dir)@, session@, email@)
                is Ok && e == ApiError::ServerError && (final(dir)@ == old(dir)@
                || extends_with_email(old(dir)@, final(dir)@, email@))),
        },
{
    if !session.is_anonymous() {
        return Err(ApiError::InvalidRequest);
    }
    if !mailbox_valid(email.as_str()) {
        return Err(ApiError::InvalidRequest);
    }
    let id = new_customer_id();
    let customer = match dir.create(id, email.clone()) {
        Ok(c) => c,
        Err(e) => {
            return Err(e);
        },
    };
    proof {
        assert(dir@.subrange(0, old(dir)@.len() as int) =~= old(dir)@);
        assert(extends_with_email(old(dir)@, dir@, email@));
    }
    match create_jwt(&customer.id, now, key) {
        Ok(jwt) => {
            let encoded = b64_encode(jwt.as_str());
            let link = magic_link(base_url.as_str(), encoded.as_str());
            Ok(SsoMail { recipient: email.clone(), encoded_jwt: encoded, link })
        },
        Err(e) => Err(e),
    }
}

/// What the exchange decides once the transport and signature layers have
/// spoken: `claims` is what the verifier returned, if anything. The result
/// and the session after. A missing or expired token and an unknown subject
/// all collapse to `AuthorizationError`, and a failed exchange never touches
/// the session.
pub open spec fn exchange_outcome(
    dir: Seq<CustomerV>,
    sess: Option<Seq<char>>,
    claims: Option<ClaimsV>,
    now: u64,
) -> (Result<Seq<char>, ApiError>, Option<Seq<char>>) {
    if sess is Some {
        (Err(ApiError::InvalidRequest), sess)
    } else {
        match claims {
            None => (Err(ApiError::AuthorizationError), sess),
            Some(c) => {
                if c.exp <= now {
                    (Err(ApiError::AuthorizationError), sess)
                } else if !has_id(dir, c.sub) {
                    (Err(ApiError::AuthorizationError), sess)
                } else {
                    (Ok(c.sub), Some(c.sub))
                }
            },
        }
    }
}

/// Complete an exchange given what the signature layer returned: check the
/// expiry by the verifier's clock, confirm the subject still resolves to an
/// existing customer, and establish the session.
pub fn exchange_claims(
    dir: &Directory,
    session: &mut SessionState,
    claims: Option<Claims>,
    now: u64,
) -> (r: Result<String, ApiError>)
    ensures
        ({
            let (out, sess1) = exchange_outcome(dir@, old(session)@, claims.deep_view(), now);
            &&& final(session)@ == sess1
            &&& match r {
                Ok(u) => out == Ok::<Seq<char>, ApiError>(u@),
                Err(e) => out == Err::<Seq<char>, ApiError>(e),
            }
        }),
{
    if !session.is_anonymous() {
        return Err(ApiError::InvalidRequest);
    }
    match claims {
        None => Err(ApiError::AuthorizationError),
        Some(c) => {
            if c.exp <= now {
                return Err(ApiError::AuthorizationError);
            }
            if !dir.exists_id(&c.sub) {
                return Err(ApiError::AuthorizationError);
            }
            let sub = c.sub;
            session.establish(sub.clone());
            Ok(sub)
        },
    }
}

/// Serve an exchange: decode the base64 query parameter, check the token's
/// signature, then its expiry, then that the subject still exists, and
/// establish the session with the subject as its user. Every decode and
/// verification failure is the same `AuthorizationError`; a failed exchange
/// never establishes or alters a session.
pub fn exchange(
    dir: &Directory,
    session: &mut SessionState,
    encoded: &String,
    now: u64,
    key: &jsonwebtoken::DecodingKey,
) -> (r: Result<String, ApiError>)
    ensures
        old(session)@ is Some ==> r == Err::<String, ApiError>(ApiError::InvalidRequest),
        b64_unwrap(encoded@) is None && old(session)@ is None ==> r == Err::<String, ApiError>(
            ApiError::AuthorizationError,
        ),
        r is Err ==> final(session)@ == old(session)@,
        match r {
            Ok(u) => old(session)@ is None && has_id(dir@, u@) && final(session)@ == Some(u@),
            Err(e) => (e == ApiError::InvalidRequest && old(session)@ is Some) || (e
                == ApiError::AuthorizationError && old(session)@ is None),
        },
{
    let claims = match b64_decode(encoded.as_str()) {
        Some(token_text) => verify_signature(token_text.as_str(), key),
        None => None,
    };
    exchange_claims(dir, session, claims, now)
}

/// Who the session says is authenticated: its user id, else
/// `AuthorizationError` — a missing session is a hard failure.
pub fn whoami(session: &SessionState) -> (r: Result<String, ApiError>)
    ensures
        match r {
            Ok(u) => session@ == Some(u@),
            Err(e) => session@ is None && e == ApiError::AuthorizationError,
        },
{
    match &session.user_id {
        Some(u) => Ok(u.clone()),
        None => Err(ApiError::AuthorizationError),
    }
}

/// Destroy the session unconditionally; idempotent.
pub fn logout(session: &mut SessionState)
    ensures
        final(session)@ is None,
{
    session.purge();
}

/// Law: a registered customer who requests a login link and exchanges the
/// minted token before its expiry is authenticated as exactly that
/// customer: the resulting session carries the id the directory maps the
/// email to.
pub proof fn lemma_login_then_exchange(
    dir: Seq<CustomerV>,
    email: Seq<char>,
    now: u64,
    later: u64,
)
    requires
        dir_wf(dir),
        login_outcome(dir, None, email, now) is Ok,
        later < login_outcome(dir, None, email, now)->Ok_0.exp,
    ensures
        ({
            let c = login_outcome(dir, None, email, now)->Ok_0;
            let (out, sess1) = exchange_outcome(dir, None, Some(c), later);
            &&& c.sub == customer_with_email(dir, email).id
            &&& out == Ok::<Seq<char>, ApiError>(c.sub)
            &&& sess1 == Some(c.sub)
        }),
{
    let c = login_outcome(dir, None, email, now)->Ok_0;
    assert(has_email(dir, email));
    let i = choose|i: int| 0 <= i < dir.len() && dir[i].email == email;
    assert(dir[i].id == c.sub);
    assert(has_id(dir, c.sub));
}

/// Law: a token whose expiry has elapsed never authenticates: the exchange
/// fails `AuthorizationError` and the session stays as it was. The same
/// holds when the signature layer returned nothing at all.
pub proof fn lemma_expired_token_rejected(
    dir: Seq<CustomerV>,
    claims: ClaimsV,
    now: u64,
)
    requires
        claims.exp <= now,
    ensures
        exchange_outcome(dir, None, Some(claims), now) == (
            Err::<Seq<char>, ApiError>(ApiError::AuthorizationError),
            None::<Seq<char>>,
        ),
        exchange_outcome(dir, None, None, now) == (
            Err::<Seq<char>, ApiError>(ApiError::AuthorizationError),
            None::<Seq<char>>,
        ),
{
}

/// Law: with a session already established, a login request and an exchange
/// both fail `InvalidRequest`, whatever else they were handed, and the
/// session stays exactly as it was.
pub proof fn lemma_existing_session_guard(
    dir: Seq<CustomerV>,
    user: Seq<char>,
    email: Seq<char>,
    claims: Option<ClaimsV>,
    now: u64,
)
    ensures
        login_outcome(dir, Some(user), email, now) == Err::<ClaimsV, ApiError>(
            ApiError::InvalidRequest,
        ),
        registration_outcome(dir, Some(user), email) == Err::<(), ApiError>(
            ApiError::InvalidRequest,
        ),
        exchange_outcome(dir, Some(user), claims, now) == (
            Err::<Seq<char>, ApiError>(ApiError::InvalidRequest),
            Some(user),
        ),
{
}

} // verus!
