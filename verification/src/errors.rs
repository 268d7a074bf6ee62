//! The error taxonomy of the authentication core.
//!
//! Every operation of the core reports one of these four kinds. Ownership
//! checks, token verification failures and missing sessions all collapse to
//! `AuthorizationError`, so a caller can never distinguish "wrong owner"
//! from "nonexistent" from "expired".

use vstd::prelude::*;

verus! {

/// The four error kinds the core can report.
#[derive(Clone, Copy, Debug, PartialEq, Eq, Structural)]
pub enum ApiError {
    /// Malformed input, or an operation that requires an anonymous caller
    /// was attempted with a session already established.
    InvalidRequest,
    /// Failed ownership check, invalid or expired token, missing session,
    /// or an already-bound key.
    AuthorizationError,
    /// Unknown email on the pure-login path.
    NotFound,
    /// Internal fault: signing, clock, storage or mail dispatch.
    ServerError,
}

impl ApiError {
    /// A short description of the error kind, for the transport layer's logs.
    pub fn message(&self) -> (r: &'static str)
        ensures
            *self is InvalidRequest ==> r@ == "invalid request"@,
            *self is AuthorizationError ==> r@ == "authorization error"@,
            *self is NotFound ==> r@ == "not found"@,
            *self is ServerError ==> r@ == "server error"@,
    {
        match self {
            ApiError::InvalidRequest => "invalid request",
            ApiError::AuthorizationError => "authorization error",
            ApiError::NotFound => "not found",
            ApiError::ServerError => "server error",
        }
    }
}

} // verus!
