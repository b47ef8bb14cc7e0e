//! Decisions of the WebSocket listener: connection slots, the accepted path, and how a session
//! ends.

use vstd::prelude::*;

use crate::error::{ServerError, ServerErrorView};
use crate::facts::lemma_known;
use crate::text::same_text;

verus! {

/// The connection slots and the tasks of a listener.
#[derive(Debug)]
pub struct ConnectionSupervisor {
    max_connections: usize,
    sessions: usize,
    tasks: usize,
}

/// The contents of [`ConnectionSupervisor`].
pub struct SupervisorView {
    /// How many sessions may run at once.
    pub max_connections: int,
    /// How many sessions run.
    pub sessions: int,
    /// How many tasks are owned: those of the running sessions, and those that ended and were not
    /// reaped yet.
    pub tasks: int,
}

impl View for ConnectionSupervisor {
    type V = SupervisorView;

    closed spec fn view(&self) -> SupervisorView {
        SupervisorView {
            max_connections: self.max_connections as int,
            sessions: self.sessions as int,
            tasks: self.tasks as int,
        }
    }
}

impl SupervisorView {
    /// No more sessions run than may, and each has a task.
    pub open spec fn well_formed(self) -> bool {
        0 <= self.sessions <= self.max_connections && self.sessions <= self.tasks
    }
}

impl ConnectionSupervisor {
    /// Creates a supervisor with a bounded number of active connections.
    pub fn new(max_connections: usize) -> (r: Result<ConnectionSupervisor, ServerError>)
        ensures
            match r {
                Ok(supervisor) => max_connections > 0 && supervisor@ == (SupervisorView {
                    max_connections: max_connections as int,
                    sessions: 0,
                    tasks: 0,
                }),
                Err(error) => max_connections == 0 && error@ == ServerErrorView::Config(
                    "max connections must be greater than zero"@,
                ),
            },
    {
        if max_connections == 0 {
            return Err(ServerError::config("max connections must be greater than zero"));
        }
        Ok(ConnectionSupervisor { max_connections, sessions: 0, tasks: 0 })
    }

    /// Returns the number of tasks currently owned by the supervisor.
    pub fn task_count(&self) -> (r: usize)
        ensures
            r == self@.tasks,
    {
        self.tasks
    }

    /// Returns whether any task is owned.
    pub fn has_tasks(&self) -> (r: bool)
        ensures
            r == (self@.tasks > 0),
    {
        self.tasks > 0
    }

    /// Attempts to reserve a connection slot and spawn its task.
    pub fn try_spawn(&mut self) -> (r: bool)
        requires
            old(self)@.well_formed(),
            old(self)@.tasks < usize::MAX,
        ensures
            final(self)@.well_formed(),
            r == (old(self)@.sessions < old(self)@.max_connections),
            final(self)@ == if r {
                SupervisorView {
                    sessions: old(self)@.sessions + 1,
                    tasks: old(self)@.tasks + 1,
                    ..old(self)@
                }
            } else {
                old(self)@
            },
    {
        if self.sessions >= self.max_connections {
            return false;
        }
        self.sessions = self.sessions + 1;
        self.tasks = self.tasks + 1;
        true
    }

    /// Notes that a session ended, which frees its slot.
    pub fn session_ended(&mut self)
        requires
            old(self)@.well_formed(),
            old(self)@.sessions > 0,
        ensures
            final(self)@.well_formed(),
            final(self)@ == (SupervisorView { sessions: old(self)@.sessions - 1, ..old(self)@ }),
    {
        self.sessions = self.sessions - 1;
    }

    /// Reaps the task of a session that ended.
    pub fn join_next(&mut self)
        requires
            old(self)@.well_formed(),
            old(self)@.tasks > old(self)@.sessions,
        ensures
            final(self)@.well_formed(),
            final(self)@ == (SupervisorView { tasks: old(self)@.tasks - 1, ..old(self)@ }),
    {
        self.tasks = self.tasks - 1;
    }

    /// Aborts and reaps all tasks.
    pub fn abort_all(&mut self)
        requires
            old(self)@.well_formed(),
        ensures
            final(self)@.well_formed(),
            final(self)@ == (SupervisorView { sessions: 0, tasks: 0, ..old(self)@ }),
    {
        self.sessions = 0;
        self.tasks = 0;
    }
}

/// The answer to a handshake on another path.
#[derive(Clone, Copy, Debug, PartialEq, Eq)]
pub struct PathRejection {
    /// The status code.
    pub status: u16,
    /// The body.
    pub body: &'static str,
    /// The `Connection` header.
    pub connection: &'static str,
    /// The `Content-Length` header.
    pub content_length: &'static str,
}

/// Decides whether a handshake is accepted: its path has to be exactly the configured one.
pub fn check_path(path: &str, expected: &str) -> (r: Result<(), PathRejection>)
    ensures
        match r {
            Ok(_) => path@ == expected@,
            Err(rejection) => path@ != expected@ && rejection.status == 404 && rejection.body@
                == "WebSocket path not found"@ && rejection.connection@ == "close"@
                && rejection.content_length@ == "23"@,
        },
{
    if same_text(path, expected) {
        Ok(())
    } else {
        Err(
            PathRejection {
                status: 404,
                body: "WebSocket path not found",
                connection: "close",
                content_length: "23",
            },
        )
    }
}

/// What is known so far of a connection.
#[derive(Clone, Copy, Debug)]
pub struct ConnectionFacts {
    /// Whether the accepted stream was prepared.
    pub prepared: Option<bool>,
    /// Whether a handle to shut it down was made.
    pub shutdown_handle: Option<bool>,
    /// Whether the stream was handed to the runtime again.
    pub restored: Option<bool>,
    /// What came of the handshake.
    pub handshake: Option<Handshake>,
    /// What came first: the end of the session, or the cancellation of the process.
    pub first: Option<SessionEvent>,
    /// Whether the session ended in time after its stream was shut down.
    pub ended_after_shutdown: Option<bool>,
}

/// What came of a handshake.
#[derive(Clone, Copy, Debug, PartialEq, Eq, Structural)]
pub enum Handshake {
    /// It took too long.
    TimedOut,
    /// It was rejected.
    Rejected,
    /// The session is established.
    Established,
}

/// What ends a session.
#[derive(Clone, Copy, Debug, PartialEq, Eq, Structural)]
pub enum SessionEvent {
    /// The session ended by itself.
    Ended,
    /// The process is shutting down.
    Cancelled,
}

/// What a connection does next.
#[derive(Clone, Copy, Debug, PartialEq, Eq)]
pub enum ConnectionStep {
    /// Prepare the accepted stream.
    Prepare,
    /// Make a handle to shut it down.
    MakeShutdownHandle,
    /// Hand the stream to the runtime again.
    Restore,
    /// Make the handshake within its timeout.
    Handshake,
    /// Run the session until it ends or the process is shutting down.
    RunSession,
    /// Shut down the stream and wait two seconds for the session to end.
    ShutDown,
    /// The result of the session is the result of the connection.
    SessionResult,
    /// The connection failed while it was set up.
    FrameFailure(&'static str),
    /// The session did not stop.
    TaskFailure(&'static str),
}

/// The contents of [`ConnectionStep`].
pub enum ConnectionStepView {
    /// Prepare the accepted stream.
    Prepare,
    /// Make a handle to shut it down.
    MakeShutdownHandle,
    /// Hand the stream to the runtime again.
    Restore,
    /// Make the handshake within its timeout.
    Handshake,
    /// Run the session until it ends or the process is shutting down.
    RunSession,
    /// Shut down the stream and wait for the session to end.
    ShutDown,
    /// The result of the session is the result of the connection.
    SessionResult,
    /// The connection failed while it was set up.
    FrameFailure(Seq<char>),
    /// The session did not stop.
    TaskFailure(Seq<char>),
}

impl View for ConnectionStep {
    type V = ConnectionStepView;

    open spec fn view(&self) -> ConnectionStepView {
        match *self {
            ConnectionStep::Prepare => ConnectionStepView::Prepare,
            ConnectionStep::MakeShutdownHandle => ConnectionStepView::MakeShutdownHandle,
            ConnectionStep::Restore => ConnectionStepView::Restore,
            ConnectionStep::Handshake => ConnectionStepView::Handshake,
            ConnectionStep::RunSession => ConnectionStepView::RunSession,
            ConnectionStep::ShutDown => ConnectionStepView::ShutDown,
            ConnectionStep::SessionResult => ConnectionStepView::SessionResult,
            ConnectionStep::FrameFailure(detail) => ConnectionStepView::FrameFailure(detail@),
            ConnectionStep::TaskFailure(detail) => ConnectionStepView::TaskFailure(detail@),
        }
    }
}

/// What an established session does next.
pub open spec fn session_step(facts: ConnectionFacts) -> ConnectionStepView {
    match facts.first {
        None => ConnectionStepView::RunSession,
        Some(SessionEvent::Ended) => ConnectionStepView::SessionResult,
        Some(SessionEvent::Cancelled) => match facts.ended_after_shutdown {
            None => ConnectionStepView::ShutDown,
            Some(true) => ConnectionStepView::SessionResult,
            Some(false) => ConnectionStepView::TaskFailure(
                "WebSocket session did not stop after TCP shutdown"@,
            ),
        },
    }
}

/// What a connection does next.
pub open spec fn connection_step(facts: ConnectionFacts) -> ConnectionStepView {
    match facts.prepared {
        None => ConnectionStepView::Prepare,
        Some(false) => ConnectionStepView::FrameFailure("could not prepare accepted TCP stream"@),
        Some(true) => match facts.shutdown_handle {
            None => ConnectionStepView::MakeShutdownHandle,
            Some(false) => ConnectionStepView::FrameFailure(
                "could not create TCP shutdown handle"@,
            ),
            Some(true) => match facts.restored {
                None => ConnectionStepView::Restore,
                Some(false) => ConnectionStepView::FrameFailure(
                    "could not restore accepted TCP stream"@,
                ),
                Some(true) => match facts.handshake {
                    None => ConnectionStepView::Handshake,
                    Some(Handshake::TimedOut) => ConnectionStepView::FrameFailure(
                        "WebSocket handshake timed out"@,
                    ),
                    Some(Handshake::Rejected) => ConnectionStepView::FrameFailure(
                        "WebSocket handshake rejected"@,
                    ),
                    Some(Handshake::Established) => session_step(facts),
                },
            },
        },
    }
}

/// Decides what a connection does next.
pub fn run_connection(facts: ConnectionFacts) -> (r: ConnectionStep)
    ensures
        r@ == connection_step(facts),
{
    match facts.prepared {
        None => {
            return ConnectionStep::Prepare;
        },
        Some(done) => if !done {
            return ConnectionStep::FrameFailure("could not prepare accepted TCP stream");
        },
    }
    match facts.shutdown_handle {
        None => {
            return ConnectionStep::MakeShutdownHandle;
        },
        Some(done) => if !done {
            return ConnectionStep::FrameFailure("could not create TCP shutdown handle");
        },
    }
    match facts.restored {
        None => {
            return ConnectionStep::Restore;
        },
        Some(done) => if !done {
            return ConnectionStep::FrameFailure("could not restore accepted TCP stream");
        },
    }
    match facts.handshake {
        None => {
            return ConnectionStep::Handshake;
        },
        Some(Handshake::TimedOut) => {
            return ConnectionStep::FrameFailure("WebSocket handshake timed out");
        },
        Some(Handshake::Rejected) => {
            return ConnectionStep::FrameFailure("WebSocket handshake rejected");
        },
        Some(Handshake::Established) => {},
    }
    match facts.first {
        None => ConnectionStep::RunSession,
        Some(SessionEvent::Ended) => ConnectionStep::SessionResult,
        Some(SessionEvent::Cancelled) => match facts.ended_after_shutdown {
            None => ConnectionStep::ShutDown,
            Some(ended) => if ended {
                ConnectionStep::SessionResult
            } else {
                ConnectionStep::TaskFailure("WebSocket session did not stop after TCP shutdown")
            },
        },
    }
}

/// A connection goes step by step: its stream is prepared, a handle to shut it down is made, the
/// stream is restored, the handshake is made, and only then does its session run. A session that
/// ends gives its result; one that is cancelled is shut down first, and gives its result where it
/// ends then. Each failure ends the connection.
pub proof fn law_connections_go_step_by_step(facts: ConnectionFacts)
    ensures
        ({
            let next = connection_step(facts);
            let prepared = facts.prepared == Some(true);
            let handled = prepared && facts.shutdown_handle == Some(true);
            let restored = handled && facts.restored == Some(true);
            let established = restored && facts.handshake == Some(Handshake::Established);
            let cancelled = established && facts.first == Some(SessionEvent::Cancelled);
            &&& next is Prepare <==> facts.prepared is None
            &&& next is MakeShutdownHandle <==> prepared && facts.shutdown_handle is None
            &&& next is Restore <==> handled && facts.restored is None
            &&& next is Handshake <==> restored && facts.handshake is None
            &&& next is RunSession <==> established && facts.first is None
            &&& next is ShutDown <==> cancelled && facts.ended_after_shutdown is None
            &&& next is SessionResult <==> established && (facts.first == Some(SessionEvent::Ended)
                || (cancelled && facts.ended_after_shutdown == Some(true)))
            &&& next is TaskFailure <==> cancelled && facts.ended_after_shutdown == Some(false)
            &&& next is FrameFailure <==> facts.prepared == Some(false) || (prepared
                && facts.shutdown_handle == Some(false)) || (handled && facts.restored == Some(
                false,
            )) || (restored && (facts.handshake == Some(Handshake::TimedOut) || facts.handshake
                == Some(Handshake::Rejected)))
            &&& restored && facts.handshake == Some(Handshake::TimedOut) ==> next
                == ConnectionStepView::FrameFailure("WebSocket handshake timed out"@)
            &&& restored && facts.handshake == Some(Handshake::Rejected) ==> next
                == ConnectionStepView::FrameFailure("WebSocket handshake rejected"@)
        }),
{
    lemma_known(facts.prepared);
    lemma_known(facts.shutdown_handle);
    lemma_known(facts.restored);
    lemma_known(facts.ended_after_shutdown);
}

/// The sessions of a supervisor never exceed the connections it allows, and never the tasks it
/// waits for.
pub proof fn law_sessions_are_bounded(supervisor: SupervisorView)
    ensures
        supervisor.well_formed() <==> 0 <= supervisor.sessions && supervisor.sessions
            <= supervisor.max_connections && supervisor.sessions <= supervisor.tasks,
{
}

} // verus!
