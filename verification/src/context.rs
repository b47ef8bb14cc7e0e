//! The node and lifecycle state of one server process.

use vstd::prelude::*;

use crate::error::{ServerError, ServerErrorView};
use crate::facts::lemma_known;
use crate::health::{HealthState, HealthStatus};
use crate::lifecycle::{health_of, transition_to, LifecycleState, ServerLifecycle};

verus! {

/// The state that a node advertises.
#[derive(Clone, Copy, Debug, PartialEq, Eq, Structural)]
pub enum NodeState {
    /// The node is starting.
    Starting,
    /// The node takes work.
    Ready,
    /// The node is shutting down.
    Draining,
    /// The node is gone.
    Offline,
}

/// The node and lifecycle state of one server process, and the stores that it owns.
#[derive(Debug)]
pub struct ServerContext {
    node_id: String,
    node_state: NodeState,
    lifecycle: ServerLifecycle,
    has_asset_store: bool,
    has_catalog_store: bool,
}

/// The contents of [`ServerContext`].
pub struct ContextView {
    /// The local node identifier.
    pub node_id: Seq<char>,
    /// The state that the node advertises.
    pub node_state: NodeState,
    /// The lifecycle state of the process.
    pub lifecycle: LifecycleState,
    /// Whether the process owns a persistent Asset store.
    pub has_asset_store: bool,
    /// Whether the process owns a persistent catalog.
    pub has_catalog_store: bool,
}

impl View for ServerContext {
    type V = ContextView;

    closed spec fn view(&self) -> ContextView {
        ContextView {
            node_id: self.node_id@,
            node_state: self.node_state,
            lifecycle: self.lifecycle@,
            has_asset_store: self.has_asset_store,
            has_catalog_store: self.has_catalog_store,
        }
    }
}

/// The error of a refused transition.
pub open spec fn lifecycle_refusal(from: LifecycleState, to: LifecycleState) -> Result<
    (),
    ServerErrorView,
> {
    match transition_to(from, to).1 {
        Ok(_) => Ok(()),
        Err(error) => Err(ServerErrorView::Lifecycle(error.from, error.to)),
    }
}

/// The error of a node whose state could not be registered.
pub open spec fn registration_failure() -> ServerErrorView {
    ServerErrorView::NodeLifecycle("node state registration failed"@)
}

/// What marking a process ready does, where `registered` tells whether the node was registered as
/// ready: the state afterwards and what is answered.
pub open spec fn marked_ready(context: ContextView, registered: bool) -> (
    ContextView,
    Result<(), ServerErrorView>,
) {
    if !registered {
        (context, Err(registration_failure()))
    } else {
        (
            ContextView {
                node_state: NodeState::Ready,
                lifecycle: transition_to(context.lifecycle, LifecycleState::Ready).0,
                ..context
            },
            lifecycle_refusal(context.lifecycle, LifecycleState::Ready),
        )
    }
}

/// What beginning to shut down does to a process, and what is answered: a process that is draining
/// already stays so.
pub open spec fn draining(context: ContextView) -> (ContextView, Result<(), ServerErrorView>) {
    if context.lifecycle == LifecycleState::Draining {
        (context, Ok(()))
    } else {
        (
            ContextView {
                lifecycle: transition_to(context.lifecycle, LifecycleState::Draining).0,
                ..context
            },
            lifecycle_refusal(context.lifecycle, LifecycleState::Draining),
        )
    }
}

/// What registering the node in a state does, and what is answered.
pub open spec fn registered_as(context: ContextView, state: NodeState, registered: bool) -> (
    ContextView,
    Result<(), ServerErrorView>,
) {
    if registered {
        (ContextView { node_state: state, ..context }, Ok(()))
    } else {
        (context, Err(registration_failure()))
    }
}

/// The view of a result.
pub open spec fn outcome_view(r: Result<(), ServerError>) -> Result<(), ServerErrorView> {
    match r {
        Ok(_) => Ok(()),
        Err(error) => Err(error@),
    }
}

/// What came of finishing a shutdown so far.
#[derive(Clone, Copy, Debug)]
pub struct ShutdownFacts {
    /// Whether the EventStore was closed.
    pub event_store: Option<bool>,
    /// Whether the persistent Asset store was closed.
    pub asset_store: Option<bool>,
    /// Whether the persistent catalog was closed.
    pub catalog_store: Option<bool>,
    /// Whether the node was unregistered.
    pub unregistered: Option<bool>,
}

/// What finishing a shutdown does next.
#[derive(Debug)]
pub enum ShutdownStep {
    /// Close the EventStore.
    CloseEventStore,
    /// Close the persistent Asset store.
    CloseAssetStore,
    /// Close the persistent catalog.
    CloseCatalogStore,
    /// Register the node as offline.
    RegisterOffline,
    /// Unregister the node.
    Unregister,
    /// Stop the lifecycle.
    Stop,
    /// The shutdown fails.
    Fail(ServerError),
}

/// The contents of [`ShutdownStep`].
pub enum ShutdownStepView {
    /// Close the EventStore.
    CloseEventStore,
    /// Close the persistent Asset store.
    CloseAssetStore,
    /// Close the persistent catalog.
    CloseCatalogStore,
    /// Register the node as offline.
    RegisterOffline,
    /// Unregister the node.
    Unregister,
    /// Stop the lifecycle.
    Stop,
    /// The shutdown fails.
    Fail(ServerErrorView),
}

impl View for ShutdownStep {
    type V = ShutdownStepView;

    open spec fn view(&self) -> ShutdownStepView {
        match *self {
            ShutdownStep::CloseEventStore => ShutdownStepView::CloseEventStore,
            ShutdownStep::CloseAssetStore => ShutdownStepView::CloseAssetStore,
            ShutdownStep::CloseCatalogStore => ShutdownStepView::CloseCatalogStore,
            ShutdownStep::RegisterOffline => ShutdownStepView::RegisterOffline,
            ShutdownStep::Unregister => ShutdownStepView::Unregister,
            ShutdownStep::Stop => ShutdownStepView::Stop,
            ShutdownStep::Fail(error) => ShutdownStepView::Fail(error@),
        }
    }
}

/// A shutdown that fails at a store.
pub open spec fn shutdown_failure(message: Seq<char>) -> ShutdownStepView {
    ShutdownStepView::Fail(ServerErrorView::Shutdown(message))
}

/// What finishing a shutdown does once the stores are closed.
pub open spec fn node_shutdown_step(context: ContextView, facts: ShutdownFacts) -> ShutdownStepView {
    if context.node_state != NodeState::Offline {
        ShutdownStepView::RegisterOffline
    } else {
        match facts.unregistered {
            None => ShutdownStepView::Unregister,
            Some(false) => ShutdownStepView::Fail(
                ServerErrorView::NodeLifecycle("node unregister failed"@),
            ),
            Some(true) => ShutdownStepView::Stop,
        }
    }
}

/// What finishing a shutdown does next: the stores are closed first, then the node is taken away,
/// and the lifecycle stops last.
pub open spec fn shutdown_step(context: ContextView, facts: ShutdownFacts) -> ShutdownStepView {
    match facts.event_store {
        None => ShutdownStepView::CloseEventStore,
        Some(false) => shutdown_failure("event store shutdown failed"@),
        Some(true) => if context.has_asset_store && facts.asset_store is None {
            ShutdownStepView::CloseAssetStore
        } else if context.has_asset_store && facts.asset_store == Some(false) {
            shutdown_failure("asset store shutdown failed"@)
        } else if context.has_catalog_store && facts.catalog_store is None {
            ShutdownStepView::CloseCatalogStore
        } else if context.has_catalog_store && facts.catalog_store == Some(false) {
            shutdown_failure("catalog store shutdown failed"@)
        } else {
            node_shutdown_step(context, facts)
        },
    }
}

/// The process after its shutdown was finished: a draining lifecycle stops.
pub open spec fn stopped(context: ContextView) -> ContextView {
    if context.lifecycle == LifecycleState::Draining {
        ContextView { lifecycle: LifecycleState::Stopped, ..context }
    } else {
        context
    }
}

impl ServerContext {
    /// Creates the context of a process that is ready and owns no persistent stores.
    pub fn new(node_id: String) -> (r: ServerContext)
        ensures
            r@ == (ContextView {
                node_id: node_id@,
                node_state: NodeState::Ready,
                lifecycle: LifecycleState::Ready,
                has_asset_store: false,
                has_catalog_store: false,
            }),
    {
        ServerContext {
            node_id,
            node_state: NodeState::Ready,
            lifecycle: ServerLifecycle::from_state(LifecycleState::Ready),
            has_asset_store: false,
            has_catalog_store: false,
        }
    }

    /// Creates the context of a process in the given state.
    pub fn new_composed(
        node_id: String,
        node_state: NodeState,
        lifecycle: ServerLifecycle,
        has_asset_store: bool,
        has_catalog_store: bool,
    ) -> (r: ServerContext)
        ensures
            r@ == (ContextView {
                node_id: node_id@,
                node_state,
                lifecycle: lifecycle@,
                has_asset_store,
                has_catalog_store,
            }),
    {
        ServerContext { node_id, node_state, lifecycle, has_asset_store, has_catalog_store }
    }

    /// Returns the local node identifier.
    pub fn node_id(&self) -> (r: &str)
        ensures
            r@ == self@.node_id,
    {
        self.node_id.as_str()
    }

    /// Returns the current local node state.
    pub fn node_state(&self) -> (r: NodeState)
        ensures
            r == self@.node_state,
    {
        self.node_state
    }

    /// Returns the process lifecycle state machine.
    pub fn lifecycle(&self) -> (r: &ServerLifecycle)
        ensures
            r@ == self@.lifecycle,
    {
        &self.lifecycle
    }

    /// Returns the read-only process health view.
    pub fn health(&self) -> (r: &HealthStatus)
        ensures
            r@ == health_of(self@.lifecycle),
    {
        self.lifecycle.health()
    }

    /// Marks the node and lifecycle ready after the listener is bound; `registered` tells whether
    /// the node was registered as ready.
    pub fn mark_ready(&mut self, registered: bool) -> (r: Result<(), ServerError>)
        ensures
            (final(self)@, outcome_view(r)) == marked_ready(old(self)@, registered),
    {
        if !registered {
            return Err(ServerError::node_lifecycle("node state registration failed"));
        }
        self.node_state = NodeState::Ready;
        match self.lifecycle.ready() {
            Ok(_) => Ok(()),
            Err(error) => Err(ServerError::Lifecycle(error)),
        }
    }

    /// Starts graceful shutdown. Returns whether the node is still to be registered as draining.
    pub fn begin_shutdown(&mut self) -> (r: Result<bool, ServerError>)
        ensures
            final(self)@ == draining(old(self)@).0,
            match r {
                Ok(register) => draining(old(self)@).1 is Ok && register == (old(self)@.node_state
                    != NodeState::Draining),
                Err(error) => draining(old(self)@).1 == Err::<(), ServerErrorView>(error@),
            },
    {
        if self.lifecycle.state() != LifecycleState::Draining {
            match self.lifecycle.begin_shutdown() {
                Ok(_) => {},
                Err(error) => {
                    return Err(ServerError::Lifecycle(error));
                },
            }
        }
        Ok(self.node_state != NodeState::Draining)
    }

    /// Takes in whether the node was registered in a state.
    pub fn register_node_state(&mut self, state: NodeState, registered: bool) -> (r: Result<
        (),
        ServerError,
    >)
        ensures
            (final(self)@, outcome_view(r)) == registered_as(old(self)@, state, registered),
    {
        if !registered {
            return Err(ServerError::node_lifecycle("node state registration failed"));
        }
        self.node_state = state;
        Ok(())
    }

    /// Decides what finishing the shutdown does next.
    pub fn finish_shutdown(&self, facts: ShutdownFacts) -> (r: ShutdownStep)
        ensures
            r@ == shutdown_step(self@, facts),
    {
        match facts.event_store {
            None => {
                return ShutdownStep::CloseEventStore;
            },
            Some(done) => if !done {
                return ShutdownStep::Fail(
                    ServerError::Shutdown { message: "event store shutdown failed".to_owned() },
                );
            },
        }
        if self.has_asset_store {
            match facts.asset_store {
                None => {
                    return ShutdownStep::CloseAssetStore;
                },
                Some(done) => if !done {
                    return ShutdownStep::Fail(
                        ServerError::Shutdown { message: "asset store shutdown failed".to_owned() },
                    );
                },
            }
        }
        if self.has_catalog_store {
            match facts.catalog_store {
                None => {
                    return ShutdownStep::CloseCatalogStore;
                },
                Some(done) => if !done {
                    return ShutdownStep::Fail(
                        ServerError::Shutdown {
                            message: "catalog store shutdown failed".to_owned(),
                        },
                    );
                },
            }
        }
        if self.node_state != NodeState::Offline {
            return ShutdownStep::RegisterOffline;
        }
        match facts.unregistered {
            None => ShutdownStep::Unregister,
            Some(done) => if done {
                ShutdownStep::Stop
            } else {
                ShutdownStep::Fail(ServerError::node_lifecycle("node unregister failed"))
            },
        }
    }

    /// Stops the lifecycle of a draining process.
    pub fn stop(&mut self)
        ensures
            final(self)@ == stopped(old(self)@),
    {
        if self.lifecycle.state() == LifecycleState::Draining {
            let _ = self.lifecycle.stop();
        }
    }
}

/// A process that is starting or ready, or draining already, and whose shutdown meets no failure
/// ends stopped and offline: it drains first, then its stores are closed, then its node is taken
/// away.
pub proof fn law_shutdown_ends_stopped_and_offline(context: ContextView, facts: ShutdownFacts)
    requires
        context.lifecycle != LifecycleState::Stopped,
        facts.event_store == Some(true),
        facts.asset_store == Some(true),
        facts.catalog_store == Some(true),
    ensures
        draining(context).1 is Ok,
        ({
            let drained = registered_as(draining(context).0, NodeState::Draining, true).0;
            let offline = registered_as(drained, NodeState::Offline, true).0;
            &&& drained.lifecycle == LifecycleState::Draining
            &&& drained.node_state == NodeState::Draining
            &&& shutdown_step(drained, facts) == ShutdownStepView::RegisterOffline
            &&& facts.unregistered is None ==> shutdown_step(offline, facts)
                == ShutdownStepView::Unregister
            &&& facts.unregistered == Some(true) ==> shutdown_step(offline, facts)
                == ShutdownStepView::Stop
            &&& stopped(offline).lifecycle == LifecycleState::Stopped
            &&& stopped(offline).node_state == NodeState::Offline
            &&& health_of(stopped(offline).lifecycle) == HealthState::Stopped
        }),
{
}

/// The node is not taken away, and the lifecycle does not stop, before every store that the process
/// owns is closed.
pub proof fn law_stores_are_closed_before_the_node_leaves(
    context: ContextView,
    facts: ShutdownFacts,
)
    ensures
        (shutdown_step(context, facts) is RegisterOffline || shutdown_step(
            context,
            facts,
        ) is Unregister || shutdown_step(context, facts) is Stop) ==> facts.event_store == Some(
            true,
        ) && (context.has_asset_store ==> facts.asset_store == Some(true)) && (
        context.has_catalog_store ==> facts.catalog_store == Some(true)),
{
}

/// A process is ready only if its node was registered as ready and it was starting; otherwise its
/// health does not become ready.
pub proof fn law_ready_only_after_registration(context: ContextView, registered: bool)
    requires
        context.lifecycle != LifecycleState::Ready,
    ensures
        marked_ready(context, registered).0.lifecycle == LifecycleState::Ready <==> registered
            && context.lifecycle == LifecycleState::Starting,
        marked_ready(context, registered).1 is Ok <==> registered && context.lifecycle
            == LifecycleState::Starting,
{
}

/// A shutdown of the context goes in order: the EventStore, the Asset store and the catalog are
/// closed, where there are any, then the node is registered as offline and unregistered, and then
/// the lifecycle stops. What fails ends it.
pub proof fn law_context_ends_in_order(context: ContextView, facts: ShutdownFacts)
    ensures
        ({
            let next = shutdown_step(context, facts);
            let events = facts.event_store == Some(true);
            let assets = events && (context.has_asset_store ==> facts.asset_store == Some(true));
            let closed = assets && (context.has_catalog_store ==> facts.catalog_store
                == Some(true));
            let offline = closed && context.node_state == NodeState::Offline;
            &&& next is CloseEventStore <==> facts.event_store is None
            &&& next is CloseAssetStore <==> events && context.has_asset_store
                && facts.asset_store is None
            &&& next is CloseCatalogStore <==> assets && context.has_catalog_store
                && facts.catalog_store is None
            &&& next is RegisterOffline <==> closed && context.node_state != NodeState::Offline
            &&& next is Unregister <==> offline && facts.unregistered is None
            &&& next is Stop <==> offline && facts.unregistered == Some(true)
            &&& facts.event_store == Some(false) ==> next == ShutdownStepView::Fail(
                ServerErrorView::Shutdown("event store shutdown failed"@),
            )
            &&& events && context.has_asset_store && facts.asset_store == Some(false) ==> next
                == ShutdownStepView::Fail(ServerErrorView::Shutdown("asset store shutdown failed"@))
            &&& assets && context.has_catalog_store && facts.catalog_store == Some(false) ==> next
                == ShutdownStepView::Fail(
                ServerErrorView::Shutdown("catalog store shutdown failed"@),
            )
            &&& offline && facts.unregistered == Some(false) ==> next == ShutdownStepView::Fail(
                ServerErrorView::NodeLifecycle("node unregister failed"@),
            )
        }),
{
    lemma_known(facts.event_store);
    lemma_known(facts.asset_store);
    lemma_known(facts.catalog_store);
    lemma_known(facts.unregistered);
}

/// Marking a process ready, draining it and registering its node change nothing but the state they
/// are about, and a registration that failed changes nothing at all.
pub proof fn law_context_changes_only_its_state(
    context: ContextView,
    state: NodeState,
    registered: bool,
)
    ensures
        marked_ready(context, false) == (
            context,
            Err::<(), ServerErrorView>(
                ServerErrorView::NodeLifecycle("node state registration failed"@),
            ),
        ),
        marked_ready(context, true).0 == (ContextView {
            node_state: NodeState::Ready,
            lifecycle: if context.lifecycle == LifecycleState::Starting {
                LifecycleState::Ready
            } else {
                context.lifecycle
            },
            ..context
        }),
        marked_ready(context, true).1 == if context.lifecycle == LifecycleState::Starting {
            Ok::<(), ServerErrorView>(())
        } else {
            Err(ServerErrorView::Lifecycle(context.lifecycle, LifecycleState::Ready))
        },
        context.lifecycle == LifecycleState::Stopped ==> draining(context).1 == Err::<
            (),
            ServerErrorView,
        >(ServerErrorView::Lifecycle(LifecycleState::Stopped, LifecycleState::Draining)),
        draining(context).0 == (ContextView {
            lifecycle: if context.lifecycle == LifecycleState::Stopped {
                LifecycleState::Stopped
            } else {
                LifecycleState::Draining
            },
            ..context
        }),
        draining(context).1 is Ok <==> context.lifecycle != LifecycleState::Stopped,
        registered_as(context, state, true) == (
            (ContextView { node_state: state, ..context }),
            Ok::<(), ServerErrorView>(()),
        ),
        registered_as(context, state, false) == (
            context,
            Err::<(), ServerErrorView>(
                ServerErrorView::NodeLifecycle("node state registration failed"@),
            ),
        ),
        stopped(context) == (ContextView {
            lifecycle: if context.lifecycle == LifecycleState::Draining {
                LifecycleState::Stopped
            } else {
                context.lifecycle
            },
            ..context
        }),
{
}

} // verus!
