//! Process configuration as the core sees it.
//!
//! The configuration is read once at startup by the surrounding program and
//! handed to the core as an immutable value; the core never reloads it. Only
//! plain values appear here: the mail sender is kept as the address text, and
//! the signing keys are loaded from the PEM files named by `jwt_ec_priv` and
//! `jwt_ec_pub` outside the core.

use vstd::prelude::*;

verus! {

/// The settings of the service. Field values come from the deployment's
/// configuration file; the defaults below fill the optional ones.
pub struct Config {
    /// Connection string of the storage collaborator.
    pub database_url: String,
    /// Upper bound on pooled storage connections.
    pub database_max_connection: u32,
    /// Address and port the HTTP front end binds.
    pub binding: String,
    /// Number of worker threads of the HTTP front end.
    pub workers: usize,
    /// Whether the front end terminates TLS itself.
    pub https: bool,
    /// Path of the TLS private key, when `https` is set.
    pub key_priv: Option<String>,
    /// Path of the TLS certificate, when `https` is set.
    pub key_cert: Option<String>,
    /// Secret the session cookie is signed with.
    pub cookie_secret: String,
    /// Domain the session cookie is scoped to.
    pub cookie_domain: String,
    /// Base URL the magic link is built on.
    pub sso_base_url: String,
    /// Path of the PEM file holding the token-signing private key.
    pub jwt_ec_priv: String,
    /// Path of the PEM file holding the token-verification public key.
    pub jwt_ec_pub: String,
    /// Port of the outbound-mail server.
    pub smtp_port: u16,
    /// Whether outbound mail requires TLS.
    pub smtp_tls: bool,
    /// Host of the outbound-mail server.
    pub smtp_host: String,
    /// Account name at the outbound-mail server.
    pub smtp_user: String,
    /// Account secret at the outbound-mail server.
    pub smtp_password: String,
    /// Address outbound mail is sent from.
    pub smtp_email_sender: String,
}

/// Default for `https`: plain HTTP.
pub fn default_https() -> (r: bool)
    ensures
        r == false,
{
    false
}

/// Default for `database_max_connection`.
pub fn default_maxconn() -> (r: u32)
    ensures
        r == 10,
{
    10
}

/// Default for `smtp_port`: the mail-submission port.
pub fn default_smtp_port() -> (r: u16)
    ensures
        r == 587,
{
    587
}

/// Default for `smtp_tls`: outbound mail goes over TLS.
pub fn default_smtp_tls() -> (r: bool)
    ensures
        r == true,
{
    true
}

} // verus!
