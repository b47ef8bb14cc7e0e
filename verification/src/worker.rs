//! The handle of a store's worker: whether commands are taken, and how it is closed.

use vstd::prelude::*;

use crate::facts::lemma_known;

verus! {

/// Why a worker takes no command.
#[derive(Clone, Copy, Debug, PartialEq, Eq, Structural)]
pub enum WorkerRefusal {
    /// The store is closed.
    Closed,
    /// The worker is gone.
    Detached,
}

/// The handle of a worker.
#[derive(Debug)]
pub struct WorkerHandle {
    /// Whether the store is closed.
    pub closed: bool,
    /// Whether the command queue is attached.
    pub attached: bool,
    /// Whether the worker is still to be joined.
    pub joinable: bool,
}

/// What came of closing a worker so far.
#[derive(Clone, Copy, Debug)]
pub struct CloseFacts {
    /// Whether the shutdown command was queued.
    pub sent: Option<bool>,
    /// Whether the worker answered the shutdown command.
    pub answered: Option<bool>,
    /// Whether the worker ended, and otherwise why it could not be joined.
    pub joined: Option<Result<(), JoinFault>>,
}

/// Why a worker could not be joined.
#[derive(Clone, Copy, Debug, PartialEq, Eq, Structural)]
pub enum JoinFault {
    /// The worker panicked.
    Panicked,
    /// The task that joins it failed.
    TaskFailed,
}

/// Why a worker could not be closed.
#[derive(Clone, Copy, Debug, PartialEq, Eq, Structural)]
pub enum CloseFailure {
    /// The worker stopped before the shutdown command.
    Stopped,
    /// The answer to the shutdown command was lost.
    AnswerLost,
    /// The worker could not be joined.
    Join(JoinFault),
}

/// What closing a worker does next.
#[derive(Clone, Copy, Debug, PartialEq, Eq, Structural)]
pub enum CloseStep {
    /// Queue the shutdown command.
    SendShutdown,
    /// Wait for the answer.
    AwaitAnswer,
    /// Join the worker.
    Join,
    /// The worker is closed.
    Done,
    /// The worker could not be closed.
    Fail(CloseFailure),
}

impl WorkerHandle {
    /// Creates the handle of a worker that runs.
    pub fn new() -> (r: WorkerHandle)
        ensures
            r == (WorkerHandle { closed: false, attached: true, joinable: true }),
    {
        WorkerHandle { closed: false, attached: true, joinable: true }
    }

    /// Checks that a command can be queued.
    pub fn sender(&self) -> (r: Result<(), WorkerRefusal>)
        ensures
            r == if self.closed {
                Err::<(), WorkerRefusal>(WorkerRefusal::Closed)
            } else if !self.attached {
                Err(WorkerRefusal::Detached)
            } else {
                Ok(())
            },
    {
        if self.closed {
            return Err(WorkerRefusal::Closed);
        }
        if !self.attached {
            return Err(WorkerRefusal::Detached);
        }
        Ok(())
    }

    /// Begins to close the worker: from now on no command is taken. Returns the handle as it was,
    /// which tells what is left to do.
    pub fn begin_close(&mut self) -> (r: WorkerHandle)
        ensures
            r == *old(self),
            *final(self) == (WorkerHandle { closed: true, attached: false, ..*old(self) }),
    {
        let before = WorkerHandle {
            closed: self.closed,
            attached: self.attached,
            joinable: self.joinable,
        };
        self.closed = true;
        self.attached = false;
        before
    }

    /// Notes that the worker is being joined, which is done once.
    pub fn begin_join(&mut self)
        ensures
            *final(self) == (WorkerHandle { joinable: false, ..*old(self) }),
    {
        self.joinable = false;
    }
}

/// What joining a worker does next.
pub open spec fn join_step(joinable: bool, facts: CloseFacts) -> CloseStep {
    if !joinable {
        CloseStep::Done
    } else {
        match facts.joined {
            None => CloseStep::Join,
            Some(Ok(_)) => CloseStep::Done,
            Some(Err(fault)) => CloseStep::Fail(CloseFailure::Join(fault)),
        }
    }
}

/// What closing a worker does next, where its handle was `before`: the accepted commands are
/// drained by a shutdown command, and the worker is joined. Closing again joins a worker that was
/// not joined, if `rejoin` says so, and otherwise changes nothing.
pub open spec fn next_close_step(before: WorkerHandle, rejoin: bool, facts: CloseFacts) -> CloseStep {
    if before.closed && !rejoin {
        CloseStep::Done
    } else if before.closed || !before.attached {
        join_step(before.joinable, facts)
    } else {
        match facts.sent {
            None => CloseStep::SendShutdown,
            Some(false) => CloseStep::Fail(CloseFailure::Stopped),
            Some(true) => match facts.answered {
                None => CloseStep::AwaitAnswer,
                Some(false) => CloseStep::Fail(CloseFailure::AnswerLost),
                Some(true) => join_step(before.joinable, facts),
            },
        }
    }
}

/// Decides what closing a worker does next, where its handle was `before`.
pub fn close_step(before: &WorkerHandle, rejoin: bool, facts: CloseFacts) -> (r: CloseStep)
    ensures
        r == next_close_step(*before, rejoin, facts),
{
    if before.closed && !rejoin {
        return CloseStep::Done;
    }
    if !before.closed && before.attached {
        match facts.sent {
            None => {
                return CloseStep::SendShutdown;
            },
            Some(done) => if !done {
                return CloseStep::Fail(CloseFailure::Stopped);
            },
        }
        match facts.answered {
            None => {
                return CloseStep::AwaitAnswer;
            },
            Some(done) => if !done {
                return CloseStep::Fail(CloseFailure::AnswerLost);
            },
        }
    }
    if !before.joinable {
        return CloseStep::Done;
    }
    match facts.joined {
        None => CloseStep::Join,
        Some(Ok(_)) => CloseStep::Done,
        Some(Err(fault)) => CloseStep::Fail(CloseFailure::Join(fault)),
    }
}

/// Closing a worker that was closed and joined does nothing and succeeds.
pub proof fn law_closing_is_idempotent(before: WorkerHandle, rejoin: bool, facts: CloseFacts)
    requires
        before.closed,
        !before.joinable,
    ensures
        next_close_step(before, rejoin, facts) == CloseStep::Done,
{
}

/// Closing a worker that runs goes in order: it is told to shut down, its answer is awaited, and
/// its task is joined, where there is one to join. A worker that was closed before is not told
/// again, and is joined only where that is asked for.
pub proof fn law_closing_goes_in_order(before: WorkerHandle, rejoin: bool, facts: CloseFacts)
    ensures
        ({
            let next = next_close_step(before, rejoin, facts);
            let running = !before.closed && before.attached;
            let told = running && facts.sent == Some(true) && facts.answered == Some(true);
            let joins = (told || (!running && (!before.closed || rejoin))) && before.joinable;
            &&& next == CloseStep::SendShutdown <==> running && facts.sent is None
            &&& next == CloseStep::AwaitAnswer <==> running && facts.sent == Some(true)
                && facts.answered is None
            &&& next == CloseStep::Fail(CloseFailure::Stopped) <==> running && facts.sent == Some(
                false,
            )
            &&& next == CloseStep::Fail(CloseFailure::AnswerLost) <==> running && facts.sent
                == Some(
                true,
            ) && facts.answered == Some(false)
            &&& next == CloseStep::Join <==> joins && facts.joined is None
            &&& joins ==> match facts.joined {
                None => true,
                Some(Ok(_)) => next == CloseStep::Done,
                Some(Err(fault)) => next == CloseStep::Fail(CloseFailure::Join(fault)),
            }
            &&& before.closed && !rejoin ==> next == CloseStep::Done
            &&& (told || (!running && rejoin)) && !before.joinable ==> next == CloseStep::Done
        }),
{
    lemma_known(facts.sent);
    lemma_known(facts.answered);
}

} // verus!
