//! Read-only process health state.

use vstd::prelude::*;

verus! {

/// The externally observable health of the server process.
#[derive(Clone, Copy, Debug, PartialEq, Eq, Structural, PartialOrd, Ord, Hash)]
pub enum HealthState {
    /// Dependencies and lifecycle state are still initializing.
    Starting,
    /// The process is ready to perform its configured work.
    Ready,
    /// The process is running but one or more dependencies are impaired.
    Degraded,
    /// Graceful shutdown is in progress.
    Stopping,
    /// The process has completed shutdown.
    Stopped,
}

/// A read-only view of current server health.
#[derive(Debug)]
pub struct HealthStatus {
    state: HealthState,
}

impl View for HealthStatus {
    type V = HealthState;

    closed spec fn view(&self) -> HealthState {
        self.state
    }
}

impl HealthStatus {
    pub(crate) fn new(state: HealthState) -> (r: HealthStatus)
        ensures
            r@ == state,
    {
        HealthStatus { state }
    }

    /// Returns the current process health state.
    pub fn state(&self) -> (r: HealthState)
        ensures
            r == self@,
    {
        self.state
    }

    /// Returns whether the process currently reports ready.
    pub fn is_ready(&self) -> (r: bool)
        ensures
            r == (self@ == HealthState::Ready),
    {
        self.state == HealthState::Ready
    }
}

} // verus!
