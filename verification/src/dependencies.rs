//! External dependency ports: the placeholders that reject everything, and which ports a process
//! uses.

use vstd::prelude::*;

use crate::config::ServerConfig;
use crate::query::ReadAuthorizationError;

verus! {

/// A refused authorization or authentication.
#[derive(Debug, PartialEq, Eq)]
pub struct Refusal {
    /// A safe detail.
    pub detail: &'static str,
}

/// A safe production placeholder that rejects every action until configured.
#[derive(Clone, Copy, Debug, Default)]
pub struct RejectAllActionAuthorizer;

impl RejectAllActionAuthorizer {
    /// Rejects the Action, whatever it is.
    pub fn authorize(&self, action_type: &str) -> (r: Result<(), Refusal>)
        ensures
            r is Err,
            r->Err_0.detail@ == "action authorization is not configured"@,
    {
        Err(Refusal { detail: "action authorization is not configured" })
    }
}

/// A safe production placeholder that rejects every authentication attempt.
#[derive(Clone, Copy, Debug, Default)]
pub struct RejectAllIdentityResolver;

impl RejectAllIdentityResolver {
    /// Rejects the credentials, whatever they are.
    pub fn resolve(&self, scheme: &str, credential: &str) -> (r: Result<String, Refusal>)
        ensures
            r is Err,
            r->Err_0.detail@ == "identity resolution is not configured"@,
    {
        Err(Refusal { detail: "identity resolution is not configured" })
    }
}

/// A safe production placeholder that rejects every subscription.
#[derive(Clone, Copy, Debug, Default)]
pub struct RejectAllSubscriptionAuthorizer;

impl RejectAllSubscriptionAuthorizer {
    /// Rejects the subscription to the Session, whatever it is.
    pub fn authorize(&self, session_id: &str) -> (r: Result<(), Refusal>)
        ensures
            r is Err,
            r->Err_0.detail@ == "subscription authorization is not configured"@,
    {
        Err(Refusal { detail: "subscription authorization is not configured" })
    }
}

/// Safe production placeholder that rejects every Document read.
#[derive(Clone, Copy, Debug, Default)]
pub struct RejectAllDocumentReadAuthorizer;

impl RejectAllDocumentReadAuthorizer {
    /// Rejects the read of the Session, whatever it is.
    pub fn authorize_session_read(&self, session_id: &str) -> (r: Result<
        (),
        ReadAuthorizationError,
    >)
        ensures
            r == Err::<(), ReadAuthorizationError>(ReadAuthorizationError::Unauthorized),
    {
        Err(ReadAuthorizationError::Unauthorized)
    }
}

/// Which authorization and identity ports a process uses.
#[derive(Clone, Copy, Debug, PartialEq, Eq, Structural)]
pub enum AuthorizationMode {
    /// The placeholders that reject everything.
    RejectAll,
    /// The explicitly unsafe development ports.
    Development,
}

/// Returns which authorization and identity ports a process uses: only development mode opens
/// anything.
pub fn authorization_mode(config: &ServerConfig) -> (r: AuthorizationMode)
    ensures
        r == if config.development_mode {
            AuthorizationMode::Development
        } else {
            AuthorizationMode::RejectAll
        },
{
    if config.development_mode {
        AuthorizationMode::Development
    } else {
        AuthorizationMode::RejectAll
    }
}

} // verus!
