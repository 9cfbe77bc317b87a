//! Configuration values the bot starts from, and the startup decisions made
//! over them.
//!
//! Loading the configuration file is I/O and happens outside the library;
//! what is decided *from* the loaded values — where the node credentials come
//! from, which marketplace token to start with — is decided here.

use vstd::prelude::*;

use crate::credential::{CredentialManager, CredentialState};

verus! {

/// Connection parameters of the Lightning node. The macaroon and the TLS
/// certificate are each resolvable from an inline value or from a file path.
#[derive(Clone, Debug, PartialEq, Eq)]
pub struct LNDConfig {
    /// Host the node's RPC interface listens on.
    pub host: String,
    /// The admin macaroon, hex-encoded, given inline.
    pub macaroon_hex: Option<String>,
    /// Path of a macaroon file to read instead.
    pub macaroon_path: Option<String>,
    /// The TLS certificate, given inline (PEM text).
    pub tls_cert_hex: Option<String>,
    /// Path of a certificate file to read instead.
    pub tls_cert_path: Option<String>,
}

/// Marketplace credentials as configured.
#[derive(Clone, Debug, PartialEq, Eq)]
pub struct MagmaConfig {
    /// A ready bearer token, when the operator supplies one.
    pub api_key: Option<String>,
    /// Requested lifetime, in seconds, of freshly created API keys.
    pub api_key_expiration: Option<u64>,
}

/// Everything the bot is configured with.
#[derive(Clone, Debug, PartialEq, Eq)]
pub struct Config {
    /// Seconds between poll cycles.
    pub loop_interval: Option<u64>,
    /// Node connection parameters.
    pub lnd: LNDConfig,
    /// Marketplace credentials.
    pub magma: MagmaConfig,
}

/// Where a piece of node credential material comes from: an inline
/// configuration value, or a file to read.
pub enum MaterialSource {
    /// Use the configured value as it stands.
    Inline { value: String },
    /// Read the file at this path (a leading `~` means the home directory).
    File { path: String },
}

/// Where the node's macaroon comes from: the inline hex value when given,
/// else the configured path, else the well-known default location.
pub fn macaroon_source(cfg: &LNDConfig) -> (r: MaterialSource)
    ensures
        match cfg.macaroon_hex {
            Some(v) => r == (MaterialSource::Inline { value: v }),
            None => match cfg.macaroon_path {
                Some(p) => r == (MaterialSource::File { path: p }),
                None => {
                    &&& r is File
                    &&& r->File_path@ == "~/.lnd/data/chain/bitcoin/mainnet/admin.macaroon"@
                },
            },
        },
{
    match &cfg.macaroon_hex {
        Some(v) => MaterialSource::Inline { value: v.clone() },
        None => match &cfg.macaroon_path {
            Some(p) => MaterialSource::File { path: p.clone() },
            None => MaterialSource::File {
                path: "~/.lnd/data/chain/bitcoin/mainnet/admin.macaroon".to_owned(),
            },
        },
    }
}

/// Where the node's TLS certificate comes from: the inline value when given,
/// else the configured path, else the well-known default location.
pub fn tls_cert_source(cfg: &LNDConfig) -> (r: MaterialSource)
    ensures
        match cfg.tls_cert_hex {
            Some(v) => r == (MaterialSource::Inline { value: v }),
            None => match cfg.tls_cert_path {
                Some(p) => r == (MaterialSource::File { path: p }),
                None => {
                    &&& r is File
                    &&& r->File_path@ == "~/.lnd/tls.cert"@
                },
            },
        },
{
    match &cfg.tls_cert_hex {
        Some(v) => MaterialSource::Inline { value: v.clone() },
        None => match &cfg.tls_cert_path {
            Some(p) => MaterialSource::File { path: p.clone() },
            None => MaterialSource::File { path: "~/.lnd/tls.cert".to_owned() },
        },
    }
}

/// Pick the marketplace token to start with: a configured key is used as it
/// stands; otherwise the cached one, unvalidated; with neither, a renewal is
/// needed before the first cycle.
pub fn startup_token_plan(
    configured: Option<String>,
    cached: Option<String>,
    manager: &mut CredentialManager,
) -> (need_renewal: bool)
    ensures
        final(manager).wf(),
        match configured {
            Some(t) => {
                &&& final(manager).state == CredentialState::Active
                &&& final(manager).token == Some(t)
                &&& !need_renewal
            },
            None => match cached {
                Some(t) => {
                    &&& final(manager).state == CredentialState::Cached
                    &&& final(manager).token == Some(t)
                    &&& !need_renewal
                },
                None => {
                    &&& final(manager).state == CredentialState::Absent
                    &&& final(manager).token is None
                    &&& need_renewal
                },
            },
        },
{
    match configured {
        Some(t) => {
            manager.install_fresh(t);
            false
        },
        None => match cached {
            Some(t) => {
                manager.install_cached(t);
                false
            },
            None => {
                manager.state = CredentialState::Absent;
                manager.token = None;
                true
            },
        },
    }
}

} // verus!
