//! Startup, serving and shutdown of the process.

use vstd::prelude::*;

use crate::config::ServerConfig;
use crate::error::{ServerError, ServerErrorView};

verus! {

/// What is known so far of the startup of a process.
#[derive(Debug)]
pub struct StartFacts {
    /// Whether a listener is bound from an earlier start.
    pub started: bool,
    /// Whether the Asset Delivery service was composed.
    pub delivery_composed: bool,
    /// Whether the WebSocket listener was bound.
    pub websocket_bound: Option<Result<(), ServerError>>,
    /// Whether the Asset HTTP listener was bound.
    pub asset_bound: Option<Result<(), ServerError>>,
    /// Whether the node and the lifecycle were marked ready.
    pub ready: Option<Result<(), ServerError>>,
    /// Whether the process was cancelled.
    pub cancelled: bool,
    /// Whether the WebSocket listener was shut down.
    pub websocket_stopped: bool,
    /// Whether the Asset HTTP listener was shut down.
    pub asset_stopped: bool,
    /// Whether the startup was rolled back.
    pub rolled_back: bool,
}

/// The contents of [`StartFacts`].
pub struct StartFactsView {
    /// Whether a listener is bound from an earlier start.
    pub started: bool,
    /// Whether the Asset Delivery service was composed.
    pub delivery_composed: bool,
    /// Whether the WebSocket listener was bound.
    pub websocket_bound: Option<Result<(), ServerErrorView>>,
    /// Whether the Asset HTTP listener was bound.
    pub asset_bound: Option<Result<(), ServerErrorView>>,
    /// Whether the node and the lifecycle were marked ready.
    pub ready: Option<Result<(), ServerErrorView>>,
    /// Whether the process was cancelled.
    pub cancelled: bool,
    /// Whether the WebSocket listener was shut down.
    pub websocket_stopped: bool,
    /// Whether the Asset HTTP listener was shut down.
    pub asset_stopped: bool,
    /// Whether the startup was rolled back.
    pub rolled_back: bool,
}

/// The contents of an optional result.
pub open spec fn optional_outcome(r: Option<Result<(), ServerError>>) -> Option<
    Result<(), ServerErrorView>,
> {
    match r {
        None => None,
        Some(Ok(_)) => Some(Ok(())),
        Some(Err(error)) => Some(Err(error@)),
    }
}

impl View for StartFacts {
    type V = StartFactsView;

    open spec fn view(&self) -> StartFactsView {
        StartFactsView {
            started: self.started,
            delivery_composed: self.delivery_composed,
            websocket_bound: optional_outcome(self.websocket_bound),
            asset_bound: optional_outcome(self.asset_bound),
            ready: optional_outcome(self.ready),
            cancelled: self.cancelled,
            websocket_stopped: self.websocket_stopped,
            asset_stopped: self.asset_stopped,
            rolled_back: self.rolled_back,
        }
    }
}

/// What a startup does next.
#[derive(Debug)]
pub enum StartStep {
    /// Bind the WebSocket listener.
    BindWebSocket,
    /// Bind the Asset HTTP listener.
    BindAsset,
    /// Mark the node and the lifecycle ready.
    MarkReady,
    /// Cancel the process.
    Cancel,
    /// Shut down the WebSocket listener at once.
    StopWebSocket,
    /// Shut down the Asset HTTP listener at once.
    StopAsset,
    /// Shut down the context.
    RollBack,
    /// The startup ends.
    Done(Result<(), ServerError>),
}

/// The contents of [`StartStep`].
pub enum StartStepView {
    /// Bind the WebSocket listener.
    BindWebSocket,
    /// Bind the Asset HTTP listener.
    BindAsset,
    /// Mark the node and the lifecycle ready.
    MarkReady,
    /// Cancel the process.
    Cancel,
    /// Shut down the WebSocket listener at once.
    StopWebSocket,
    /// Shut down the Asset HTTP listener at once.
    StopAsset,
    /// Shut down the context.
    RollBack,
    /// The startup ends.
    Done(Result<(), ServerErrorView>),
}

impl View for StartStep {
    type V = StartStepView;

    open spec fn view(&self) -> StartStepView {
        match *self {
            StartStep::BindWebSocket => StartStepView::BindWebSocket,
            StartStep::BindAsset => StartStepView::BindAsset,
            StartStep::MarkReady => StartStepView::MarkReady,
            StartStep::Cancel => StartStepView::Cancel,
            StartStep::StopWebSocket => StartStepView::StopWebSocket,
            StartStep::StopAsset => StartStepView::StopAsset,
            StartStep::RollBack => StartStepView::RollBack,
            StartStep::Done(Ok(_)) => StartStepView::Done(Ok(())),
            StartStep::Done(Err(error)) => StartStepView::Done(Err(error@)),
        }
    }
}

/// The end of a startup that failed before any listener was bound.
pub open spec fn roll_back(facts: StartFactsView, error: ServerErrorView) -> StartStepView {
    if !facts.rolled_back {
        StartStepView::RollBack
    } else {
        StartStepView::Done(Err(error))
    }
}

/// The end of a startup that failed after the WebSocket listener was bound.
pub open spec fn stop_websocket(facts: StartFactsView, error: ServerErrorView) -> StartStepView {
    if !facts.websocket_stopped {
        StartStepView::StopWebSocket
    } else {
        roll_back(facts, error)
    }
}

/// The end of a startup that failed after all listeners were bound.
pub open spec fn stop_listeners(
    facts: StartFactsView,
    asset: bool,
    error: ServerErrorView,
) -> StartStepView {
    if !facts.cancelled {
        StartStepView::Cancel
    } else if !facts.websocket_stopped {
        StartStepView::StopWebSocket
    } else if asset && !facts.asset_stopped {
        StartStepView::StopAsset
    } else {
        roll_back(facts, error)
    }
}

/// What a startup does once all listeners are bound; `asset` tells whether the Asset HTTP listener
/// is among them.
pub open spec fn ready_step(facts: StartFactsView, asset: bool) -> StartStepView {
    match facts.ready {
        None => StartStepView::MarkReady,
        Some(Ok(_)) => StartStepView::Done(Ok(())),
        Some(Err(error)) => stop_listeners(facts, asset, error),
    }
}

/// What a startup does next: the listeners are bound first, and only then the process is marked
/// ready. Whatever fails on the way is taken back.
pub open spec fn start_step(config: ServerConfig, facts: StartFactsView) -> StartStepView {
    if facts.started {
        StartStepView::Done(Ok(()))
    } else {
        match config.verdict() {
            Err(error) => roll_back(facts, error),
            Ok(_) => match facts.websocket_bound {
                None => StartStepView::BindWebSocket,
                Some(Err(error)) => roll_back(facts, error),
                Some(Ok(_)) => if !config.asset_delivery.enabled {
                    ready_step(facts, false)
                } else if !facts.delivery_composed {
                    stop_websocket(
                        facts,
                        ServerErrorView::Bootstrap("Asset Delivery service was not composed"@),
                    )
                } else {
                    match facts.asset_bound {
                        None => StartStepView::BindAsset,
                        Some(Err(error)) => stop_websocket(facts, error),
                        Some(Ok(_)) => ready_step(facts, true),
                    }
                },
            },
        }
    }
}

/// Returns a copy of the error.
pub(crate) fn copy_error(error: &ServerError) -> (r: ServerError)
    ensures
        r@ == error@,
{
    match error {
        ServerError::Lifecycle(error) => ServerError::Lifecycle(*error),
        ServerError::Config { message } => ServerError::Config { message: message.clone() },
        ServerError::Bootstrap { message } => ServerError::Bootstrap { message: message.clone() },
        ServerError::NodeLifecycle { message } => ServerError::NodeLifecycle {
            message: message.clone(),
        },
        ServerError::Listener { message } => ServerError::Listener { message: message.clone() },
        ServerError::Connection { message } => ServerError::Connection { message: message.clone() },
        ServerError::Shutdown { message } => ServerError::Shutdown { message: message.clone() },
    }
}

fn decide_roll_back(facts: &StartFacts, error: ServerError) -> (r: StartStep)
    ensures
        r@ == roll_back(facts@, error@),
{
    if !facts.rolled_back {
        StartStep::RollBack
    } else {
        StartStep::Done(Err(error))
    }
}

fn decide_stop_websocket(facts: &StartFacts, error: ServerError) -> (r: StartStep)
    ensures
        r@ == stop_websocket(facts@, error@),
{
    if !facts.websocket_stopped {
        StartStep::StopWebSocket
    } else {
        decide_roll_back(facts, error)
    }
}

fn decide_ready(facts: &StartFacts, asset: bool) -> (r: StartStep)
    ensures
        r@ == ready_step(facts@, asset),
{
    match &facts.ready {
        None => StartStep::MarkReady,
        Some(Ok(_)) => StartStep::Done(Ok(())),
        Some(Err(error)) => if !facts.cancelled {
            StartStep::Cancel
        } else if !facts.websocket_stopped {
            StartStep::StopWebSocket
        } else if asset && !facts.asset_stopped {
            StartStep::StopAsset
        } else {
            decide_roll_back(facts, copy_error(error))
        },
    }
}

/// What is known so far of the shutdown of a process.
#[derive(Debug)]
pub struct StopFacts {
    /// Whether the process has stopped already.
    pub stopped: bool,
    /// Whether a WebSocket listener is bound.
    pub has_websocket: bool,
    /// Whether an Asset HTTP listener is bound.
    pub has_asset: bool,
    /// Whether the context began to shut down.
    pub began: Option<Result<(), ServerError>>,
    /// Whether the process was cancelled.
    pub cancelled: bool,
    /// Whether the WebSocket listener was drained.
    pub websocket_drained: bool,
    /// Whether the Asset HTTP listener was drained.
    pub asset_drained: bool,
    /// Whether the context finished to shut down.
    pub finished: Option<Result<(), ServerError>>,
}

/// The contents of [`StopFacts`].
pub struct StopFactsView {
    /// Whether the process has stopped already.
    pub stopped: bool,
    /// Whether a WebSocket listener is bound.
    pub has_websocket: bool,
    /// Whether an Asset HTTP listener is bound.
    pub has_asset: bool,
    /// Whether the context began to shut down.
    pub began: Option<Result<(), ServerErrorView>>,
    /// Whether the process was cancelled.
    pub cancelled: bool,
    /// Whether the WebSocket listener was drained.
    pub websocket_drained: bool,
    /// Whether the Asset HTTP listener was drained.
    pub asset_drained: bool,
    /// Whether the context finished to shut down.
    pub finished: Option<Result<(), ServerErrorView>>,
}

impl View for StopFacts {
    type V = StopFactsView;

    open spec fn view(&self) -> StopFactsView {
        StopFactsView {
            stopped: self.stopped,
            has_websocket: self.has_websocket,
            has_asset: self.has_asset,
            began: optional_outcome(self.began),
            cancelled: self.cancelled,
            websocket_drained: self.websocket_drained,
            asset_drained: self.asset_drained,
            finished: optional_outcome(self.finished),
        }
    }
}

/// What a shutdown does next.
#[derive(Debug)]
pub enum StopStep {
    /// Begin to shut down the context, which stops advertising readiness.
    Begin,
    /// Cancel the process.
    Cancel,
    /// Drain the WebSocket listener within the grace period.
    DrainWebSocket(u64),
    /// Drain the Asset HTTP listener within the grace period.
    DrainAsset(u64),
    /// Finish to shut down the context.
    Finish,
    /// The shutdown ends.
    Done(Result<(), ServerError>),
}

/// The contents of [`StopStep`].
pub enum StopStepView {
    /// Begin to shut down the context, which stops advertising readiness.
    Begin,
    /// Cancel the process.
    Cancel,
    /// Drain the WebSocket listener within the grace period.
    DrainWebSocket(int),
    /// Drain the Asset HTTP listener within the grace period.
    DrainAsset(int),
    /// Finish to shut down the context.
    Finish,
    /// The shutdown ends.
    Done(Result<(), ServerErrorView>),
}

impl View for StopStep {
    type V = StopStepView;

    open spec fn view(&self) -> StopStepView {
        match *self {
            StopStep::Begin => StopStepView::Begin,
            StopStep::Cancel => StopStepView::Cancel,
            StopStep::DrainWebSocket(period) => StopStepView::DrainWebSocket(period as int),
            StopStep::DrainAsset(period) => StopStepView::DrainAsset(period as int),
            StopStep::Finish => StopStepView::Finish,
            StopStep::Done(Ok(_)) => StopStepView::Done(Ok(())),
            StopStep::Done(Err(error)) => StopStepView::Done(Err(error@)),
        }
    }
}

/// What a shutdown does next: readiness is withdrawn first, then the listeners are drained, and the
/// context is finished last. A process that has stopped is left alone.
pub open spec fn stop_step(config: ServerConfig, facts: StopFactsView) -> StopStepView {
    let period = config.websocket_listener.shutdown_grace_period_milliseconds as int;
    if facts.stopped {
        StopStepView::Done(Ok(()))
    } else {
        match facts.began {
            None => StopStepView::Begin,
            Some(Err(error)) => StopStepView::Done(Err(error)),
            Some(Ok(_)) => if !facts.cancelled {
                StopStepView::Cancel
            } else if facts.has_websocket && !facts.websocket_drained {
                StopStepView::DrainWebSocket(period)
            } else if facts.has_asset && !facts.asset_drained {
                StopStepView::DrainAsset(period)
            } else {
                match facts.finished {
                    None => StopStepView::Finish,
                    Some(outcome) => StopStepView::Done(outcome),
                }
            },
        }
    }
}

/// Owns the configuration of a process and decides how it starts, serves and stops.
#[derive(Debug)]
pub struct ServerApplication {
    /// The configuration.
    pub config: ServerConfig,
}

impl ServerApplication {
    /// Creates an application.
    pub fn new(config: ServerConfig) -> (r: ServerApplication)
        ensures
            r == (ServerApplication { config }),
    {
        ServerApplication { config }
    }

    /// Decides what a startup does next.
    pub fn start(&self, facts: &StartFacts) -> (r: StartStep)
        ensures
            r@ == start_step(self.config, facts@),
    {
        if facts.started {
            return StartStep::Done(Ok(()));
        }
        match self.config.validate() {
            Err(error) => {
                return decide_roll_back(facts, error);
            },
            Ok(_) => {},
        }
        match &facts.websocket_bound {
            None => {
                return StartStep::BindWebSocket;
            },
            Some(Err(error)) => {
                return decide_roll_back(facts, copy_error(error));
            },
            Some(Ok(_)) => {},
        }
        if !self.config.asset_delivery.enabled() {
            return decide_ready(facts, false);
        }
        if !facts.delivery_composed {
            return decide_stop_websocket(
                facts,
                ServerError::bootstrap("Asset Delivery service was not composed"),
            );
        }
        match &facts.asset_bound {
            None => StartStep::BindAsset,
            Some(Err(error)) => decide_stop_websocket(facts, copy_error(error)),
            Some(Ok(_)) => decide_ready(facts, true),
        }
    }

    /// Decides what a shutdown does next.
    pub fn shutdown(&self, facts: &StopFacts) -> (r: StopStep)
        ensures
            r@ == stop_step(self.config, facts@),
    {
        if facts.stopped {
            return StopStep::Done(Ok(()));
        }
        match &facts.began {
            None => {
                return StopStep::Begin;
            },
            Some(Err(error)) => {
                return StopStep::Done(Err(copy_error(error)));
            },
            Some(Ok(_)) => {},
        }
        let period: u64 = self.config.websocket_listener.shutdown_grace_period_milliseconds;
        if !facts.cancelled {
            return StopStep::Cancel;
        }
        if facts.has_websocket && !facts.websocket_drained {
            return StopStep::DrainWebSocket(period);
        }
        if facts.has_asset && !facts.asset_drained {
            return StopStep::DrainAsset(period);
        }
        match &facts.finished {
            None => StopStep::Finish,
            Some(Ok(_)) => StopStep::Done(Ok(())),
            Some(Err(error)) => StopStep::Done(Err(copy_error(error))),
        }
    }

    /// Returns the outcome of serving and shutting down: what stopped the server counts more than
    /// how the shutdown went.
    pub fn serve(&self, served: Result<(), ServerError>, shutdown: Result<(), ServerError>) -> (r:
        Result<(), ServerError>)
        ensures
            served is Err ==> r == served,
            served is Ok ==> r == shutdown,
    {
        match served {
            Ok(_) => shutdown,
            Err(error) => Err(error),
        }
    }
}

/// The process is marked ready only after its configuration was found usable and every listener
/// that it is to have was bound.
pub proof fn law_ready_only_after_listeners_are_bound(config: ServerConfig, facts: StartFactsView)
    ensures
        start_step(config, facts) is MarkReady ==> config.verdict() is Ok && (
        facts.websocket_bound matches Some(Ok(_))) && (config.asset_delivery.enabled
            ==> facts.delivery_composed && (facts.asset_bound matches Some(Ok(_)))),
{
}

/// A startup that fails is rolled back first, and no listener that it bound is left running.
pub proof fn law_failed_startup_is_rolled_back(config: ServerConfig, facts: StartFactsView)
    requires
        start_step(config, facts) matches StartStepView::Done(Err(_)),
    ensures
        facts.rolled_back,
        config.verdict() is Ok && (facts.websocket_bound matches Some(Ok(_)))
            ==> facts.websocket_stopped,
        config.verdict() is Ok && (facts.websocket_bound matches Some(Ok(_)))
            && config.asset_delivery.enabled && facts.delivery_composed && (
        facts.asset_bound matches Some(Ok(_))) ==> facts.asset_stopped,
{
}

/// The stores and the node of a process are not given up before its listeners were drained, and its
/// listeners are not drained before it stopped advertising readiness.
pub proof fn law_listeners_are_drained_before_the_context_ends(
    config: ServerConfig,
    facts: StopFactsView,
)
    ensures
        stop_step(config, facts) is Finish ==> (facts.began matches Some(Ok(_))) && facts.cancelled
            && (facts.has_websocket ==> facts.websocket_drained) && (facts.has_asset
            ==> facts.asset_drained),
        (stop_step(config, facts) is DrainWebSocket || stop_step(config, facts) is DrainAsset) ==> (
        facts.began matches Some(Ok(_))) && facts.cancelled,
{
}

/// Starting a process that has started does nothing and succeeds.
pub proof fn law_start_is_idempotent(config: ServerConfig, facts: StartFactsView)
    requires
        facts.started,
    ensures
        start_step(config, facts) == StartStepView::Done(Ok(())),
{
}

/// A startup goes in order: the WebSocket listener is bound, then the Asset listener where delivery
/// is switched on, and then the process is marked ready; it succeeds exactly where all of that was
/// done, or where it had started already.
pub proof fn law_startup_goes_in_order(config: ServerConfig, facts: StartFactsView)
    requires
        !facts.started,
    ensures
        start_step(config, facts) == StartStepView::Done(Ok(())) <==> config.verdict() is Ok && (
        facts.websocket_bound matches Some(Ok(_))) && (config.asset_delivery.enabled
            ==> facts.delivery_composed && (facts.asset_bound matches Some(Ok(_)))) && (
        facts.ready matches Some(Ok(_))),
        start_step(config, facts) is BindWebSocket <==> config.verdict() is Ok
            && facts.websocket_bound is None,
        start_step(config, facts) is BindAsset <==> config.verdict() is Ok && (
        facts.websocket_bound matches Some(Ok(_))) && config.asset_delivery.enabled
            && facts.delivery_composed && facts.asset_bound is None,
        start_step(config, facts) is MarkReady <==> config.verdict() is Ok && (
        facts.websocket_bound matches Some(Ok(_))) && (config.asset_delivery.enabled
            ==> facts.delivery_composed && (facts.asset_bound matches Some(Ok(_))))
            && facts.ready is None,
{
}

/// A startup that failed reports what failed: the configuration, the listener that could not be
/// bound, or the readiness that could not be had. Before that it stops what it had bound and rolls
/// back, and takes no other step.
pub proof fn law_failed_startup_reports_its_failure(
    config: ServerConfig,
    facts: StartFactsView,
    error: ServerErrorView,
)
    requires
        !facts.started,
    ensures
        config.verdict() == Err::<(), ServerErrorView>(error) ==> start_step(config, facts)
            == if facts.rolled_back {
            StartStepView::Done(Err(error))
        } else {
            StartStepView::RollBack
        },
        config.verdict() is Ok && facts.websocket_bound == Some(
            Err::<(), ServerErrorView>(error),
        ) ==> start_step(config, facts) == if facts.rolled_back {
            StartStepView::Done(Err(error))
        } else {
            StartStepView::RollBack
        },
        config.verdict() is Ok && (facts.websocket_bound matches Some(Ok(_)))
            && config.asset_delivery.enabled && facts.delivery_composed && facts.asset_bound
                == Some(
            Err::<(), ServerErrorView>(error),
        ) ==> start_step(config, facts) == if !facts.websocket_stopped {
            StartStepView::StopWebSocket
        } else if facts.rolled_back {
            StartStepView::Done(Err(error))
        } else {
            StartStepView::RollBack
        },
        config.verdict() is Ok && (facts.websocket_bound matches Some(Ok(_))) && (
        config.asset_delivery.enabled ==> facts.delivery_composed && (
        facts.asset_bound matches Some(Ok(_)))) && facts.ready == Some(
            Err::<(), ServerErrorView>(error),
        ) ==> start_step(config, facts) == if !facts.cancelled {
            StartStepView::Cancel
        } else if !facts.websocket_stopped {
            StartStepView::StopWebSocket
        } else if config.asset_delivery.enabled && !facts.asset_stopped {
            StartStepView::StopAsset
        } else if facts.rolled_back {
            StartStepView::Done(Err(error))
        } else {
            StartStepView::RollBack
        },
{
}

/// A shutdown goes in order: it begins, cancels what runs, drains the WebSocket listener and the
/// Asset listener, each for the configured grace period, and ends the context; it reports what that
/// came to. A process that has stopped is left alone.
pub proof fn law_shutdown_goes_in_order(config: ServerConfig, facts: StopFactsView)
    ensures
        facts.stopped ==> stop_step(config, facts) == StopStepView::Done(Ok(())),
        !facts.stopped ==> {
            let next = stop_step(config, facts);
            let period = config.websocket_listener.shutdown_grace_period_milliseconds;
            let begun = facts.began matches Some(Ok(_));
            &&& next is Begin <==> facts.began is None
            &&& facts.began matches Some(Err(error)) ==> next == StopStepView::Done(Err(error))
            &&& next is Cancel <==> begun && !facts.cancelled
            &&& next is DrainWebSocket <==> begun && facts.cancelled && facts.has_websocket
                && !facts.websocket_drained
            &&& next matches StopStepView::DrainWebSocket(given) ==> given == period
            &&& next is DrainAsset <==> begun && facts.cancelled && (facts.has_websocket
                ==> facts.websocket_drained) && facts.has_asset && !facts.asset_drained
            &&& next matches StopStepView::DrainAsset(given) ==> given == period
            &&& begun && facts.cancelled && (facts.has_websocket ==> facts.websocket_drained) && (
            facts.has_asset ==> facts.asset_drained) ==> match facts.finished {
                None => next is Finish,
                Some(outcome) => next == StopStepView::Done(outcome),
            }
        },
{
}

} // verus!
