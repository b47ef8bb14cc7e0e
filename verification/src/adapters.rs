//! Failures of the Runtime and of subscriptions, as transport clients are told.

use vstd::prelude::*;

verus! {

/// Why the Runtime did not execute an Action.
#[derive(Clone, Copy, Debug, PartialEq, Eq, Structural)]
pub enum RuntimeFault {
    /// No handler is registered for the Action type.
    HandlerNotFound,
    /// The Action is invalid.
    ValidationFailed,
    /// The Action is not authorized.
    AuthorizationFailed,
    /// The handler refused the Action.
    HandlerFailed,
    /// The Events could not be stored or published.
    PipelineFailed,
    /// The execution could not be coordinated.
    CoordinationFailed,
    /// The execution coordinator is unavailable.
    CoordinationUnavailable,
    /// Anything else.
    Other,
}

/// What a client is told of an Action that was not executed.
#[derive(Clone, Copy, Debug, PartialEq, Eq)]
pub enum TransportExecutionError {
    /// The Action was rejected.
    Rejected {
        /// A safe detail.
        detail: &'static str,
    },
    /// The Action cannot be executed now.
    Unavailable {
        /// A safe detail.
        detail: &'static str,
    },
    /// The execution failed.
    Failed {
        /// A safe detail.
        detail: &'static str,
    },
}

/// The contents of [`TransportExecutionError`].
pub enum ExecutionErrorView {
    /// The Action was rejected.
    Rejected(Seq<char>),
    /// The Action cannot be executed now.
    Unavailable(Seq<char>),
    /// The execution failed.
    Failed(Seq<char>),
}

impl View for TransportExecutionError {
    type V = ExecutionErrorView;

    open spec fn view(&self) -> ExecutionErrorView {
        match *self {
            TransportExecutionError::Rejected { detail } => ExecutionErrorView::Rejected(detail@),
            TransportExecutionError::Unavailable { detail } => ExecutionErrorView::Unavailable(
                detail@,
            ),
            TransportExecutionError::Failed { detail } => ExecutionErrorView::Failed(detail@),
        }
    }
}

/// Maps a failure of the Runtime.
pub fn map_runtime_error(fault: RuntimeFault) -> (r: TransportExecutionError)
    ensures
        r@ == match fault {
            RuntimeFault::HandlerNotFound => ExecutionErrorView::Rejected(
                "action was rejected by the runtime"@,
            ),
            RuntimeFault::ValidationFailed => ExecutionErrorView::Rejected(
                "action was rejected by the runtime"@,
            ),
            RuntimeFault::AuthorizationFailed => ExecutionErrorView::Rejected(
                "action was rejected by the runtime"@,
            ),
            RuntimeFault::HandlerFailed => ExecutionErrorView::Rejected(
                "action was rejected by the action handler"@,
            ),
            RuntimeFault::PipelineFailed => ExecutionErrorView::Unavailable(
                "event pipeline is unavailable"@,
            ),
            RuntimeFault::CoordinationFailed => ExecutionErrorView::Unavailable(
                "event pipeline is unavailable"@,
            ),
            RuntimeFault::CoordinationUnavailable => ExecutionErrorView::Unavailable(
                "execution coordination is unavailable"@,
            ),
            RuntimeFault::Other => ExecutionErrorView::Failed("runtime execution failed"@),
        },
{
    match fault {
        RuntimeFault::HandlerNotFound | RuntimeFault::ValidationFailed
        | RuntimeFault::AuthorizationFailed => TransportExecutionError::Rejected {
            detail: "action was rejected by the runtime",
        },
        RuntimeFault::HandlerFailed => TransportExecutionError::Rejected {
            detail: "action was rejected by the action handler",
        },
        RuntimeFault::PipelineFailed | RuntimeFault::CoordinationFailed =>
        TransportExecutionError::Unavailable { detail: "event pipeline is unavailable" },
        RuntimeFault::CoordinationUnavailable => TransportExecutionError::Unavailable {
            detail: "execution coordination is unavailable",
        },
        RuntimeFault::Other => TransportExecutionError::Failed {
            detail: "runtime execution failed",
        },
    }
}

/// Why a subscription failed.
#[derive(Clone, Copy, Debug, PartialEq, Eq, Structural)]
pub enum SyncFault {
    /// The subscriber did not keep up.
    SubscriberLagged,
    /// The subscription was closed.
    SubscriptionClosed,
    /// The filter is invalid.
    InvalidFilter,
    /// The queue capacity is invalid.
    InvalidQueueCapacity,
    /// Anything else.
    Other,
}

/// What a client is told of a subscription that failed.
#[derive(Clone, Copy, Debug, PartialEq, Eq)]
pub enum EventSourceError {
    /// The subscriber did not keep up.
    SubscriptionLagged,
    /// The subscription was closed.
    SubscriptionClosed,
    /// The subscription cannot be had.
    Unavailable {
        /// A safe detail.
        detail: &'static str,
    },
    /// The subscription failed.
    Failed {
        /// A safe detail.
        detail: &'static str,
    },
}

/// The contents of [`EventSourceError`].
pub enum EventSourceErrorView {
    /// The subscriber did not keep up.
    SubscriptionLagged,
    /// The subscription was closed.
    SubscriptionClosed,
    /// The subscription cannot be had.
    Unavailable(Seq<char>),
    /// The subscription failed.
    Failed(Seq<char>),
}

impl View for EventSourceError {
    type V = EventSourceErrorView;

    open spec fn view(&self) -> EventSourceErrorView {
        match *self {
            EventSourceError::SubscriptionLagged => EventSourceErrorView::SubscriptionLagged,
            EventSourceError::SubscriptionClosed => EventSourceErrorView::SubscriptionClosed,
            EventSourceError::Unavailable { detail } => EventSourceErrorView::Unavailable(detail@),
            EventSourceError::Failed { detail } => EventSourceErrorView::Failed(detail@),
        }
    }
}

/// Maps a failure of a subscription.
pub fn map_sync_error(fault: SyncFault) -> (r: EventSourceError)
    ensures
        r@ == match fault {
            SyncFault::SubscriberLagged => EventSourceErrorView::SubscriptionLagged,
            SyncFault::SubscriptionClosed => EventSourceErrorView::SubscriptionClosed,
            SyncFault::InvalidFilter => EventSourceErrorView::Unavailable(
                "event source rejected the subscription"@,
            ),
            SyncFault::InvalidQueueCapacity => EventSourceErrorView::Unavailable(
                "event source rejected the subscription"@,
            ),
            SyncFault::Other => EventSourceErrorView::Failed("event source failed"@),
        },
{
    match fault {
        SyncFault::SubscriberLagged => EventSourceError::SubscriptionLagged,
        SyncFault::SubscriptionClosed => EventSourceError::SubscriptionClosed,
        SyncFault::InvalidFilter | SyncFault::InvalidQueueCapacity => EventSourceError::Unavailable {
            detail: "event source rejected the subscription",
        },
        SyncFault::Other => EventSourceError::Failed { detail: "event source failed" },
    }
}

} // verus!
