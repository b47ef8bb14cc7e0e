//! Process lifecycle state machine.

use vstd::prelude::*;

use crate::error::LifecycleError;
use crate::health::{HealthState, HealthStatus};

verus! {

/// The internal lifecycle state of the server process.
#[derive(Clone, Copy, Debug, PartialEq, Eq, Structural, PartialOrd, Ord, Hash)]
pub enum LifecycleState {
    /// Process initialization is in progress.
    Starting,
    /// Initialization completed and the process can accept work.
    Ready,
    /// Graceful shutdown is in progress.
    Draining,
    /// The process is not running.
    Stopped,
}

impl LifecycleState {
    /// The name under which diagnostics show the state.
    pub open spec fn spec_name(self) -> Seq<char> {
        match self {
            LifecycleState::Starting => "starting"@,
            LifecycleState::Ready => "ready"@,
            LifecycleState::Draining => "draining"@,
            LifecycleState::Stopped => "stopped"@,
        }
    }

    /// Returns the name under which diagnostics show the state.
    pub fn name(&self) -> (r: String)
        ensures
            r@ == self.spec_name(),
    {
        match self {
            LifecycleState::Starting => "starting".to_owned(),
            LifecycleState::Ready => "ready".to_owned(),
            LifecycleState::Draining => "draining".to_owned(),
            LifecycleState::Stopped => "stopped".to_owned(),
        }
    }
}

/// The health that the process shows in a lifecycle state.
pub open spec fn health_of(state: LifecycleState) -> HealthState {
    match state {
        LifecycleState::Starting => HealthState::Starting,
        LifecycleState::Ready => HealthState::Ready,
        LifecycleState::Draining => HealthState::Stopping,
        LifecycleState::Stopped => HealthState::Stopped,
    }
}

/// The transitions that a process may make.
pub open spec fn may_follow(from: LifecycleState, to: LifecycleState) -> bool {
    match to {
        LifecycleState::Starting => from == LifecycleState::Stopped,
        LifecycleState::Ready => from == LifecycleState::Starting,
        LifecycleState::Draining => from == LifecycleState::Starting || from
            == LifecycleState::Ready,
        LifecycleState::Stopped => from == LifecycleState::Draining,
    }
}

/// What asking for the state `to` does to a process in the state `from`: the state afterwards and
/// what is answered. A transition that may not be made is refused with both states, and changes
/// nothing.
pub open spec fn transition_to(from: LifecycleState, to: LifecycleState) -> (
    LifecycleState,
    Result<(), LifecycleError>,
) {
    if may_follow(from, to) {
        (to, Ok(()))
    } else {
        (from, Err(LifecycleError { from, to }))
    }
}

/// A state machine for one server process lifecycle. A process has one, and shares it behind a
/// lock.
#[derive(Debug)]
pub struct ServerLifecycle {
    state: LifecycleState,
    health: HealthStatus,
}

impl View for ServerLifecycle {
    type V = LifecycleState;

    closed spec fn view(&self) -> LifecycleState {
        self.state
    }
}

impl Default for ServerLifecycle {
    fn default() -> (r: ServerLifecycle)
        ensures
            r@ == LifecycleState::Stopped,
    {
        ServerLifecycle::new()
    }
}

impl ServerLifecycle {
    /// The health shown is always that of the lifecycle state.
    #[verifier::type_invariant]
    spec fn health_follows_state(self) -> bool {
        self.health@ == health_of(self.state)
    }

    /// Creates a lifecycle in the stopped state.
    pub fn new() -> (r: ServerLifecycle)
        ensures
            r@ == LifecycleState::Stopped,
    {
        ServerLifecycle::from_state(LifecycleState::Stopped)
    }

    pub(crate) fn from_state(state: LifecycleState) -> (r: ServerLifecycle)
        ensures
            r@ == state,
    {
        ServerLifecycle { state, health: HealthStatus::new(ServerLifecycle::health_for(state)) }
    }

    /// Transitions a stopped process to starting.
    pub fn start(&mut self) -> (r: Result<(), LifecycleError>)
        ensures
            (final(self)@, r) == transition_to(old(self)@, LifecycleState::Starting),
    {
        let allowed: [LifecycleState; 1] = [LifecycleState::Stopped];
        self.transition(allowed.as_slice(), LifecycleState::Starting)
    }

    /// Transitions a starting process to ready.
    pub fn ready(&mut self) -> (r: Result<(), LifecycleError>)
        ensures
            (final(self)@, r) == transition_to(old(self)@, LifecycleState::Ready),
    {
        let allowed: [LifecycleState; 1] = [LifecycleState::Starting];
        self.transition(allowed.as_slice(), LifecycleState::Ready)
    }

    /// Begins graceful shutdown from a starting or ready process.
    pub fn begin_shutdown(&mut self) -> (r: Result<(), LifecycleError>)
        ensures
            (final(self)@, r) == transition_to(old(self)@, LifecycleState::Draining),
    {
        let allowed: [LifecycleState; 2] = [LifecycleState::Starting, LifecycleState::Ready];
        self.transition(allowed.as_slice(), LifecycleState::Draining)
    }

    /// Completes graceful shutdown from the draining state.
    pub fn stop(&mut self) -> (r: Result<(), LifecycleError>)
        ensures
            (final(self)@, r) == transition_to(old(self)@, LifecycleState::Stopped),
    {
        let allowed: [LifecycleState; 1] = [LifecycleState::Draining];
        self.transition(allowed.as_slice(), LifecycleState::Stopped)
    }

    /// Returns the current lifecycle state.
    pub fn state(&self) -> (r: LifecycleState)
        ensures
            r == self@,
    {
        self.state
    }

    /// Returns a read-only view of the corresponding health state.
    pub fn health(&self) -> (r: &HealthStatus)
        ensures
            r@ == health_of(self@),
    {
        proof {
            use_type_invariant(self);
        }
        &self.health
    }

    fn transition(&mut self, allowed_from: &[LifecycleState], to: LifecycleState) -> (r: Result<
        (),
        LifecycleError,
    >)
        ensures
            allowed_from@.contains(old(self)@) ==> final(self)@ == to && r == Ok::<
                (),
                LifecycleError,
            >(()),
            !allowed_from@.contains(old(self)@) ==> final(self)@ == old(self)@ && r == Err::<
                (),
                LifecycleError,
            >(LifecycleError { from: old(self)@, to }),
    {
        let from = self.state;
        let mut i: usize = 0;
        while i < allowed_from.len()
            invariant
                i <= allowed_from@.len(),
                *self == *old(self),
                from == old(self)@,
                forall|j: int| 0 <= j < i ==> allowed_from@[j] != from,
            decreases allowed_from@.len() - i,
        {
            if allowed_from[i] == from {
                assert(allowed_from@[i as int] == from);
                *self = ServerLifecycle::from_state(to);
                return Ok(());
            }
            i = i + 1;
        }
        Err(LifecycleError::new(from, to))
    }

    fn health_for(state: LifecycleState) -> (r: HealthState)
        ensures
            r == health_of(state),
    {
        match state {
            LifecycleState::Starting => HealthState::Starting,
            LifecycleState::Ready => HealthState::Ready,
            LifecycleState::Draining => HealthState::Stopping,
            LifecycleState::Stopped => HealthState::Stopped,
        }
    }
}

/// The state after asking for each state of `requests` in turn.
pub open spec fn after_requests(from: LifecycleState, requests: Seq<LifecycleState>) -> LifecycleState
    decreases requests.len(),
{
    if requests.len() == 0 {
        from
    } else {
        after_requests(transition_to(from, requests[0]).0, requests.skip(1))
    }
}

/// A stopped process that is asked in turn to start, to become ready, to shut down and to stop
/// goes through every state, is never refused, and can start again.
pub proof fn law_complete_lifecycle()
    ensures
        transition_to(LifecycleState::Stopped, LifecycleState::Starting) == (
            LifecycleState::Starting,
            Ok::<(), LifecycleError>(()),
        ),
        transition_to(LifecycleState::Starting, LifecycleState::Ready) == (
            LifecycleState::Ready,
            Ok::<(), LifecycleError>(()),
        ),
        transition_to(LifecycleState::Ready, LifecycleState::Draining) == (
            LifecycleState::Draining,
            Ok::<(), LifecycleError>(()),
        ),
        transition_to(LifecycleState::Draining, LifecycleState::Stopped) == (
            LifecycleState::Stopped,
            Ok::<(), LifecycleError>(()),
        ),
        after_requests(
            LifecycleState::Stopped,
            seq![
                LifecycleState::Starting,
                LifecycleState::Ready,
                LifecycleState::Draining,
                LifecycleState::Stopped,
            ],
        ) == LifecycleState::Stopped,
{
    reveal_with_fuel(after_requests, 5);
    let all = seq![
        LifecycleState::Starting,
        LifecycleState::Ready,
        LifecycleState::Draining,
        LifecycleState::Stopped,
    ];
    assert(all.skip(1).skip(1).skip(1).skip(1).len() == 0);
}

/// From every state, each requested state is reached exactly when the transition may be made;
/// a refused request leaves the state, and with it the health shown, as it was, and names both
/// states.
pub proof fn law_refused_transition_changes_nothing(from: LifecycleState, to: LifecycleState)
    ensures
        transition_to(from, to).1 is Ok <==> transition_to(from, to).0 == to && may_follow(from, to),
        transition_to(from, to).1 is Err ==> transition_to(from, to).0 == from && health_of(
            transition_to(from, to).0,
        ) == health_of(from) && transition_to(from, to).1->Err_0 == (LifecycleError { from, to }),
{
}

/// Whatever is asked of a process that is shutting down, it becomes ready again only after it has
/// stopped: as long as no request to stop is among them, it stays draining.
pub proof fn law_draining_only_stops(requests: Seq<LifecycleState>)
    requires
        !requests.contains(LifecycleState::Stopped),
    ensures
        after_requests(LifecycleState::Draining, requests) == LifecycleState::Draining,
    decreases requests.len(),
{
    if requests.len() > 0 {
        assert(requests.contains(requests[0]));
        assert forall|s: LifecycleState| requests.skip(1).contains(s) implies requests.contains(
            s,
        ) by {
            let i = choose|i: int| 0 <= i < requests.skip(1).len() && requests.skip(1)[i] == s;
            assert(requests[i + 1] == s);
        }
        law_draining_only_stops(requests.skip(1));
    }
}

/// The lifecycle goes from stopped to starting, from starting to ready, from either of these to
/// draining, and from draining to stopped; no other change is made, and none from a state to
/// itself.
pub proof fn law_lifecycle_transitions(from: LifecycleState, to: LifecycleState)
    ensures
        transition_to(from, to).1 is Ok <==> (from == LifecycleState::Stopped && to
            == LifecycleState::Starting) || (from == LifecycleState::Starting && to
            == LifecycleState::Ready) || (from == LifecycleState::Starting && to
            == LifecycleState::Draining) || (from == LifecycleState::Ready && to
            == LifecycleState::Draining) || (from == LifecycleState::Draining && to
            == LifecycleState::Stopped),
        transition_to(from, to).0 == if transition_to(from, to).1 is Ok {
            to
        } else {
            from
        },
        transition_to(from, from).1 is Err,
{
}

/// A process is healthy and ready exactly where its lifecycle is ready, and tells apart that it is
/// starting, that it stops, and that it has stopped.
pub proof fn law_health_follows_the_lifecycle(state: LifecycleState)
    ensures
        health_of(state) == HealthState::Ready <==> state == LifecycleState::Ready,
        health_of(state) == HealthState::Starting <==> state == LifecycleState::Starting,
        health_of(state) == HealthState::Stopping <==> state == LifecycleState::Draining,
        health_of(state) == HealthState::Stopped <==> state == LifecycleState::Stopped,
        health_of(state) != HealthState::Degraded,
{
}

} // verus!
