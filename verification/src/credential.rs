//! Lifecycle of the marketplace authentication token.
//!
//! The manager owns the single bearer credential: loaded from the local
//! cache, acquired fresh through a challenge/sign/login handshake with the
//! node, and dropped the moment the marketplace rejects it — a stale token is
//! never offered again. The handshake itself is a step machine: each step
//! names the one outside call to perform, and the transition contracts pin
//! how the challenge, signature and tokens flow from step to step. The I/O
//! (file cache, network, node RPC) is performed by the surrounding
//! application, which feeds results back in.

use vstd::prelude::*;

verus! {

/// Default lifetime, in seconds, requested for a freshly scoped API key
/// (thirty days), used when the configuration names none.
pub const DEFAULT_API_KEY_EXPIRY_SECONDS: u64 = 2592000;

/// Where the manager stands in the credential lifecycle.
#[derive(Clone, Copy, Debug, PartialEq, Eq, Structural)]
pub enum CredentialState {
    /// No token is held.
    Absent,
    /// A token was loaded from the local cache; it has not been validated
    /// against the server.
    Cached,
    /// A token freshly acquired (or supplied by configuration) is in use.
    Active,
    /// The server rejected the last token; it has been dropped and must be
    /// renewed before any further marketplace call.
    Rejected,
}

/// Owner of the marketplace bearer token. At most one token is held at a
/// time, and a rejected token is dropped, never retried.
pub struct CredentialManager {
    /// Lifecycle state.
    pub state: CredentialState,
    /// The bearer token, present exactly while the state allows its use.
    pub token: Option<String>,
}

impl CredentialManager {
    /// A token is held exactly in the states that allow offering one.
    pub open spec fn wf(&self) -> bool {
        self.token is Some <==> (self.state == CredentialState::Cached || self.state
            == CredentialState::Active)
    }

    /// Start with no credential.
    pub fn new() -> (r: CredentialManager)
        ensures
            r.wf(),
            r.state == CredentialState::Absent,
    {
        CredentialManager { state: CredentialState::Absent, token: None }
    }

    /// Install a token read from the local cache; it is usable but not yet
    /// validated against the server.
    pub fn install_cached(&mut self, token: String)
        ensures
            final(self).wf(),
            final(self).state == CredentialState::Cached,
            final(self).token == Some(token),
    {
        self.state = CredentialState::Cached;
        self.token = Some(token);
    }

    /// Install a freshly acquired token (from configuration or a completed
    /// renewal handshake), replacing whatever was held.
    pub fn install_fresh(&mut self, token: String)
        ensures
            final(self).wf(),
            final(self).state == CredentialState::Active,
            final(self).token == Some(token),
    {
        self.state = CredentialState::Active;
        self.token = Some(token);
    }

    /// The marketplace rejected the current token: drop it. After this, no
    /// token is offered until a renewal completes.
    pub fn on_auth_rejected(&mut self)
        ensures
            final(self).wf(),
            final(self).state == CredentialState::Rejected,
            final(self).token is None,
    {
        self.state = CredentialState::Rejected;
        self.token = None;
    }

    /// The token to attach to a marketplace call: present exactly when a
    /// cached or active token is held, and never a rejected one.
    pub fn current_token(&self) -> (r: Option<&String>)
        requires
            self.wf(),
        ensures
            match r {
                Some(t) => self.token == Some(*t) && (self.state == CredentialState::Cached
                    || self.state == CredentialState::Active),
                None => self.token is None && (self.state == CredentialState::Absent
                    || self.state == CredentialState::Rejected),
            },
    {
        self.token.as_ref()
    }
}

/// One step of the credential-renewal handshake, naming the outside call the
/// application must perform next. Any failed leg surfaces as
/// [`RenewalFailed`]; retry is the scheduler's concern, across cycles.
pub enum RenewStep {
    /// Ask the marketplace for a signing challenge (the one call made without
    /// a bearer token).
    FetchChallenge,
    /// Have the node sign the challenge message.
    SignChallenge { message: String, identifier: String },
    /// Submit the challenge identifier and the node's signature to obtain a
    /// login token.
    SubmitLogin { identifier: String, signature: String },
    /// Create a scoped API key, authenticated with the login token, valid for
    /// the requested number of seconds.
    CreateScopedKey { login_token: String, expiry_seconds: u64 },
    /// Persist the scoped key to the local single-slot cache.
    PersistToken { token: String },
    /// The handshake is complete and the key persisted.
    Done { token: String },
}

/// A leg of the renewal handshake failed; the credential stays absent and the
/// caller may retry on a later cycle.
#[derive(Clone, Copy, Debug, PartialEq, Eq, Structural)]
pub struct RenewalFailed;

/// Begin the renewal handshake: the held token is dropped first, so the
/// challenge request carries no stale credential.
pub fn renew_begin(manager: &mut CredentialManager) -> (step: RenewStep)
    ensures
        final(manager).wf(),
        final(manager).state == CredentialState::Absent,
        final(manager).token is None,
        step is FetchChallenge,
{
    manager.state = CredentialState::Absent;
    manager.token = None;
    RenewStep::FetchChallenge
}

/// The marketplace answered the challenge request: sign exactly the message
/// it sent, keeping its identifier for the login step.
pub fn renew_on_challenge(message: String, identifier: String) -> (step: RenewStep)
    ensures
        step == (RenewStep::SignChallenge { message, identifier }),
{
    RenewStep::SignChallenge { message, identifier }
}

/// The node produced a signature: submit it with the challenge identifier.
pub fn renew_on_signature(identifier: String, signature: String) -> (step: RenewStep)
    ensures
        step == (RenewStep::SubmitLogin { identifier, signature }),
{
    RenewStep::SubmitLogin { identifier, signature }
}

/// Login succeeded: request a scoped API key with the configured lifetime,
/// or the default one when the configuration names none.
pub fn renew_on_login_token(login_token: String, configured_expiry_seconds: Option<u64>) -> (step:
    RenewStep)
    ensures
        step == (RenewStep::CreateScopedKey {
            login_token,
            expiry_seconds: match configured_expiry_seconds {
                Some(s) => s,
                None => DEFAULT_API_KEY_EXPIRY_SECONDS,
            },
        }),
{
    let expiry_seconds = match configured_expiry_seconds {
        Some(s) => s,
        None => DEFAULT_API_KEY_EXPIRY_SECONDS,
    };
    RenewStep::CreateScopedKey { login_token, expiry_seconds }
}

/// The scoped key was issued: persist it to the single-slot cache.
pub fn renew_on_scoped_key(token: String) -> (step: RenewStep)
    ensures
        step == (RenewStep::PersistToken { token }),
{
    RenewStep::PersistToken { token }
}

/// The key is persisted: the handshake is complete and the fresh token
/// becomes the active credential.
pub fn renew_on_persisted(manager: &mut CredentialManager, token: String) -> (step: RenewStep)
    ensures
        final(manager).wf(),
        final(manager).state == CredentialState::Active,
        final(manager).token == Some(token),
        step == (RenewStep::Done { token }),
{
    let step_token = token.clone();
    manager.install_fresh(token);
    RenewStep::Done { token: step_token }
}

} // verus!
