//! Verified core of a passwordless, magic-link authentication service.
//!
//! The crate models the two security-relevant state machines of such a
//! service: the single-sign-on flow (login, registration, token exchange,
//! session) and the per-customer API-key registry with its one-time host
//! binding. Signing, base64 transport encoding, address validation and
//! randomness are obtained from outside crates through narrow trusted
//! wrappers; everything decided on their results is verified.

pub mod config;
pub mod directory;
pub mod errors;
pub mod flow;
pub mod registry;
pub mod session;
pub mod token;
