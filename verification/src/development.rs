//! Explicitly unsafe development-only identity, authorization, and echo behavior.

use vstd::prelude::*;

use crate::dependencies::Refusal;
use crate::query::ReadAuthorizationError;
use crate::text::{contains_string, same_text, string_texts};

verus! {

/// Development credential scheme accepted by [`DevelopmentIdentityResolver`].
pub const DEVELOPMENT_IDENTITY_SCHEME: &'static str = "development";

/// The Action type that development mode answers with an echo.
pub const DEVELOPMENT_ECHO_ACTION_TYPE: &'static str = "dev.echo";

/// The type of the Event that echoes an Action.
pub const DEVELOPMENT_ECHOED_EVENT_TYPE: &'static str = "dev.echoed";

/// An authenticated actor.
#[derive(Debug, PartialEq, Eq)]
pub struct ActorBinding {
    /// The actor.
    pub actor_id: String,
    /// What the identity rests on.
    pub source: String,
}

/// Resolves a development credential containing a plain ActorId.
///
/// This resolver performs no authentication and must never be exposed publicly.
#[derive(Clone, Copy, Debug, Default)]
pub struct DevelopmentIdentityResolver;

impl DevelopmentIdentityResolver {
    /// Resolves credentials of the development scheme; `actor_id` is the actor that the credential
    /// reads as, if it reads as one.
    pub fn resolve(&self, scheme: &str, actor_id: Option<String>) -> (r: Result<
        ActorBinding,
        Refusal,
    >)
        ensures
            match r {
                Ok(binding) => scheme@ == DEVELOPMENT_IDENTITY_SCHEME@ && actor_id is Some
                    && binding.actor_id@ == actor_id->0@ && binding.source@
                    == DEVELOPMENT_IDENTITY_SCHEME@,
                Err(refusal) => if scheme@ != DEVELOPMENT_IDENTITY_SCHEME@ {
                    refusal.detail@ == "unsupported development credential scheme"@
                } else {
                    actor_id is None && refusal.detail@
                        == "development credential is not a valid actor ID"@
                },
            },
    {
        if !same_text(scheme, DEVELOPMENT_IDENTITY_SCHEME) {
            return Err(Refusal { detail: "unsupported development credential scheme" });
        }
        match actor_id {
            Some(actor_id) => Ok(
                ActorBinding { actor_id, source: DEVELOPMENT_IDENTITY_SCHEME.to_owned() },
            ),
            None => Err(Refusal { detail: "development credential is not a valid actor ID" }),
        }
    }
}

/// Allows Actions only when the process explicitly runs in development mode.
#[derive(Clone, Copy, Debug, Default)]
pub struct DevelopmentActionAuthorizer;

impl DevelopmentActionAuthorizer {
    /// Allows the echo and the Canvas Actions, whose types are `canvas_action_types`, and nothing
    /// else.
    pub fn authorize(&self, action_type: &str, canvas_action_types: &[String]) -> (r: Result<
        (),
        Refusal,
    >)
        ensures
            match r {
                Ok(_) => action_type@ == DEVELOPMENT_ECHO_ACTION_TYPE@ || string_texts(
                    canvas_action_types@,
                ).contains(action_type@),
                Err(refusal) => action_type@ != DEVELOPMENT_ECHO_ACTION_TYPE@ && !string_texts(
                    canvas_action_types@,
                ).contains(action_type@) && refusal.detail@
                    == "development action type is not enabled"@,
            },
    {
        if same_text(action_type, DEVELOPMENT_ECHO_ACTION_TYPE) || contains_string(
            canvas_action_types,
            action_type,
        ) {
            Ok(())
        } else {
            Err(Refusal { detail: "development action type is not enabled" })
        }
    }
}

/// Allows subscriptions only when the process explicitly runs in development mode.
#[derive(Clone, Copy, Debug, Default)]
pub struct DevelopmentSubscriptionAuthorizer;

impl DevelopmentSubscriptionAuthorizer {
    /// Allows the subscription of the actor to the Session.
    pub fn authorize(&self, actor_id: &str, session_id: &str) -> (r: Result<(), Refusal>)
        ensures
            r is Ok,
    {
        Ok(())
    }
}

/// Allows authenticated Development actors to read only the Development Session's immutable
/// Document catalog.
#[derive(Debug)]
pub struct DevelopmentDocumentReadAuthorizer {
    session_id: String,
}

impl View for DevelopmentDocumentReadAuthorizer {
    type V = Seq<char>;

    closed spec fn view(&self) -> Seq<char> {
        self.session_id@
    }
}

impl DevelopmentDocumentReadAuthorizer {
    /// Creates an authorizer scoped to one Development Session.
    pub fn new(session_id: String) -> (r: DevelopmentDocumentReadAuthorizer)
        ensures
            r@ == session_id@,
    {
        DevelopmentDocumentReadAuthorizer { session_id }
    }

    /// Returns the Session this authorizer permits.
    pub fn session_id(&self) -> (r: &str)
        ensures
            r@ == self@,
    {
        self.session_id.as_str()
    }

    /// Authorizes the read of the configured Session, and of no other.
    pub fn authorize_session_read(&self, session_id: &str) -> (r: Result<
        (),
        ReadAuthorizationError,
    >)
        ensures
            match r {
                Ok(_) => session_id@ == self@,
                Err(error) => session_id@ != self@ && error == ReadAuthorizationError::Unauthorized,
            },
    {
        if same_text(session_id, self.session_id.as_str()) {
            Ok(())
        } else {
            Err(ReadAuthorizationError::Unauthorized)
        }
    }
}

/// An Event that a handler asks for.
#[derive(Debug, PartialEq, Eq)]
pub struct EventDraft {
    /// The Event type.
    pub event_type: String,
    /// The encoded payload.
    pub payload: String,
}

/// Answers an Action with an Event that carries its payload.
#[derive(Clone, Copy, Debug, Default)]
pub struct DevelopmentEchoHandler;

impl DevelopmentEchoHandler {
    /// Returns the one Event that echoes the payload.
    pub fn handle(&self, payload: String) -> (r: Vec<EventDraft>)
        ensures
            r@.len() == 1,
            r@[0].event_type@ == DEVELOPMENT_ECHOED_EVENT_TYPE@,
            r@[0].payload@ == payload@,
    {
        let mut drafts: Vec<EventDraft> = Vec::new();
        drafts.push(EventDraft { event_type: DEVELOPMENT_ECHOED_EVENT_TYPE.to_owned(), payload });
        drafts
    }
}

} // verus!
