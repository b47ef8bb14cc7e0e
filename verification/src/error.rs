//! Errors at the server composition boundary.

use vstd::prelude::*;

use crate::lifecycle::LifecycleState;

verus! {

/// Errors produced by invalid process lifecycle transitions.
#[derive(Clone, Copy, Debug, PartialEq, Eq, Structural)]
pub struct LifecycleError {
    /// The state from which the transition was attempted.
    pub from: LifecycleState,
    /// The requested target state.
    pub to: LifecycleState,
}

impl LifecycleError {
    pub(crate) fn new(from: LifecycleState, to: LifecycleState) -> (r: LifecycleError)
        ensures
            r == (LifecycleError { from, to }),
    {
        LifecycleError { from, to }
    }

    /// Returns the state from which the transition was attempted.
    pub fn from(&self) -> (r: LifecycleState)
        ensures
            r == self.from,
    {
        self.from
    }

    /// Returns the requested target state.
    pub fn to(&self) -> (r: LifecycleState)
        ensures
            r == self.to,
    {
        self.to
    }
}

/// Errors produced while loading, composing, or shutting down the server.
#[derive(Debug, PartialEq, Eq)]
#[non_exhaustive]
pub enum ServerError {
    /// The process lifecycle rejected a state transition.
    Lifecycle(LifecycleError),
    /// The process configuration is missing or invalid.
    Config {
        /// A backend-neutral configuration message.
        message: String,
    },
    /// A required dependency could not be composed.
    Bootstrap {
        /// A backend-neutral bootstrap message.
        message: String,
    },
    /// The local node could not be registered or transitioned.
    NodeLifecycle {
        /// A backend-neutral lifecycle message.
        message: String,
    },
    /// The WebSocket listener could not bind or accept a connection.
    Listener {
        /// A safe listener diagnostic.
        message: String,
    },
    /// A connection task failed at the server boundary.
    Connection {
        /// A safe connection diagnostic.
        message: String,
    },
    /// The process could not wait for or complete shutdown.
    Shutdown {
        /// A backend-neutral shutdown message.
        message: String,
    },
}

/// What a server error says.
pub enum ServerErrorView {
    /// A refused transition.
    Lifecycle(LifecycleState, LifecycleState),
    /// A configuration message.
    Config(Seq<char>),
    /// A bootstrap message.
    Bootstrap(Seq<char>),
    /// A node lifecycle message.
    NodeLifecycle(Seq<char>),
    /// A listener diagnostic.
    Listener(Seq<char>),
    /// A connection diagnostic.
    Connection(Seq<char>),
    /// A shutdown message.
    Shutdown(Seq<char>),
}

impl View for ServerError {
    type V = ServerErrorView;

    open spec fn view(&self) -> ServerErrorView {
        match *self {
            ServerError::Lifecycle(error) => ServerErrorView::Lifecycle(error.from, error.to),
            ServerError::Config { message } => ServerErrorView::Config(message@),
            ServerError::Bootstrap { message } => ServerErrorView::Bootstrap(message@),
            ServerError::NodeLifecycle { message } => ServerErrorView::NodeLifecycle(message@),
            ServerError::Listener { message } => ServerErrorView::Listener(message@),
            ServerError::Connection { message } => ServerErrorView::Connection(message@),
            ServerError::Shutdown { message } => ServerErrorView::Shutdown(message@),
        }
    }
}

impl ServerErrorView {
    /// The error as it is shown: what failed, and the message.
    pub open spec fn shown(self) -> Seq<char> {
        match self {
            ServerErrorView::Lifecycle(from, to) =>
            "invalid server lifecycle transition from `"@ + from.spec_name() + "` to `"@
                + to.spec_name() + "`"@,
            ServerErrorView::Config(message) => "invalid server configuration: "@ + message,
            ServerErrorView::Bootstrap(message) => "server bootstrap failed: "@ + message,
            ServerErrorView::NodeLifecycle(message) => "node lifecycle failed: "@ + message,
            ServerErrorView::Listener(message) => "WebSocket listener failed: "@ + message,
            ServerErrorView::Connection(message) => "WebSocket connection failed: "@ + message,
            ServerErrorView::Shutdown(message) => "server shutdown failed: "@ + message,
        }
    }
}

/// The view of a result whose success is taken as it is.
pub open spec fn result_view<T>(r: Result<T, ServerError>) -> Result<T, ServerErrorView> {
    match r {
        Ok(value) => Ok(value),
        Err(error) => Err(error@),
    }
}

impl ServerError {
    pub(crate) fn config(message: &str) -> (r: ServerError)
        ensures
            r@ == ServerErrorView::Config(message@),
    {
        ServerError::Config { message: message.to_owned() }
    }

    pub(crate) fn bootstrap(message: &str) -> (r: ServerError)
        ensures
            r@ == ServerErrorView::Bootstrap(message@),
    {
        ServerError::Bootstrap { message: message.to_owned() }
    }

    pub(crate) fn node_lifecycle(message: &str) -> (r: ServerError)
        ensures
            r@ == ServerErrorView::NodeLifecycle(message@),
    {
        ServerError::NodeLifecycle { message: message.to_owned() }
    }

    pub(crate) fn listener(message: &str) -> (r: ServerError)
        ensures
            r@ == ServerErrorView::Listener(message@),
    {
        ServerError::Listener { message: message.to_owned() }
    }

    /// Returns the error as it is shown: what failed, and the message.
    pub fn message(&self) -> (r: String)
        ensures
            r@ == self@.shown(),
    {
        match self {
            ServerError::Lifecycle(error) => {
                let start = "invalid server lifecycle transition from `".to_owned();
                let told = start.concat(error.from().name().as_str()).concat("` to `");
                told.concat(error.to().name().as_str()).concat("`")
            },
            ServerError::Config { message } => "invalid server configuration: ".to_owned().concat(
                message.as_str(),
            ),
            ServerError::Bootstrap { message } => "server bootstrap failed: ".to_owned().concat(
                message.as_str(),
            ),
            ServerError::NodeLifecycle { message } => "node lifecycle failed: ".to_owned().concat(
                message.as_str(),
            ),
            ServerError::Listener { message } => "WebSocket listener failed: ".to_owned().concat(
                message.as_str(),
            ),
            ServerError::Connection { message } => "WebSocket connection failed: ".to_owned().concat(
                message.as_str(),
            ),
            ServerError::Shutdown { message } => "server shutdown failed: ".to_owned().concat(
                message.as_str(),
            ),
        }
    }
}

/// An error is told with what it is about, and with nothing else but its own message.
pub proof fn law_errors_are_told_in_words(
    message: Seq<char>,
    from: LifecycleState,
    to: LifecycleState,
)
    ensures
        ServerErrorView::Config(message).shown() == "invalid server configuration: "@ + message,
        ServerErrorView::Bootstrap(message).shown() == "server bootstrap failed: "@ + message,
        ServerErrorView::NodeLifecycle(message).shown() == "node lifecycle failed: "@ + message,
        ServerErrorView::Listener(message).shown() == "WebSocket listener failed: "@ + message,
        ServerErrorView::Connection(message).shown() == "WebSocket connection failed: "@ + message,
        ServerErrorView::Shutdown(message).shown() == "server shutdown failed: "@ + message,
        ServerErrorView::Lifecycle(from, to).shown()
            == "invalid server lifecycle transition from `"@ + from.spec_name() + "` to `"@
            + to.spec_name() + "`"@,
        LifecycleState::Starting.spec_name() == "starting"@,
        LifecycleState::Ready.spec_name() == "ready"@,
        LifecycleState::Draining.spec_name() == "draining"@,
        LifecycleState::Stopped.spec_name() == "stopped"@,
{
}

} // verus!
