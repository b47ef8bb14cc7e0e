//! Composition, startup, serving and shutdown of a process.

use orbitrelay::adapters::{
    map_runtime_error, map_sync_error, EventSourceError, RuntimeFault, SyncFault,
    TransportExecutionError,
};
use orbitrelay::application::{ServerApplication, StartFacts, StartStep, StopFacts, StopStep};
use orbitrelay::bootstrap::{
    AssetCheck, BindingFact, Bootstrap, BootstrapDecision, BootstrapFacts, BootstrapStep,
    Publication, ReadScope, TransportFacts, TransportStep,
};
use orbitrelay::bootstrap_pdf::{bootstrap_development_pdf, PdfFacts, PdfStep};
use orbitrelay::canvas_history::CanvasLookup;
use orbitrelay::catalog::{BootstrapBinding, CatalogPublishOutcome};
use orbitrelay::config::{PdfInspectionLimits, ServerConfig, WebSocketAdapterConfig};
use orbitrelay::context::{NodeState, ServerContext, ShutdownFacts, ShutdownStep};
use orbitrelay::dependencies::{
    authorization_mode, AuthorizationMode, RejectAllActionAuthorizer,
    RejectAllDocumentReadAuthorizer, RejectAllIdentityResolver, RejectAllSubscriptionAuthorizer,
};
use orbitrelay::development::{
    DevelopmentActionAuthorizer, DevelopmentDocumentReadAuthorizer, DevelopmentEchoHandler,
    DevelopmentIdentityResolver, DevelopmentSubscriptionAuthorizer,
};
use orbitrelay::error::ServerError;
use orbitrelay::health::HealthState;
use orbitrelay::lifecycle::{LifecycleState, ServerLifecycle};
use orbitrelay::listener::{
    check_path, run_connection, ConnectionFacts, ConnectionStep, ConnectionSupervisor, Handshake,
    SessionEvent,
};
use orbitrelay::pipeline::{DispatchStep, PipelineAdapter};
use orbitrelay::query::ReadAuthorizationError;

const ADAPTER: WebSocketAdapterConfig =
    WebSocketAdapterConfig { max_message_bytes: 1024 * 1024, accepted: true };
const LIMITS: PdfInspectionLimits = PdfInspectionLimits { max_asset_bytes: 100 };

fn config() -> ServerConfig {
    ServerConfig::default_with(ADAPTER, LIMITS)
}

/// What a composition was asked to do, answered as if every step succeeded.
fn compose(config: ServerConfig, fail: Option<&str>) -> (Vec<String>, Result<(), ServerError>) {
    let bootstrap = Bootstrap::new(config);
    let mut facts = BootstrapFacts::new();
    let mut steps = Vec::new();
    loop {
        let step = match bootstrap.initialize_with(&facts) {
            BootstrapDecision::Done(outcome) => return (steps, outcome),
            BootstrapDecision::Take(step) => step,
        };
        let name = format!("{step:?}");
        let name = name.split('(').next().unwrap().to_owned();
        let done = fail != Some(name.as_str());
        steps.push(name);
        match step {
            BootstrapStep::RegisterStarting => facts.registered = Some(done),
            BootstrapStep::OpenAssetStore => facts.asset_store = Some(done),
            BootstrapStep::OpenCatalogStore => facts.catalog_store = Some(done),
            BootstrapStep::RegisterEchoHandler => facts.echo_handler = Some(done),
            BootstrapStep::GetBinding => {
                facts.binding =
                    Some(if done { BindingFact::Unbound } else { BindingFact::Failed });
            }
            BootstrapStep::GetBoundCanvas(_) => {
                facts.bound_canvas = Some(CanvasLookup::Found("session".to_owned()));
            }
            BootstrapStep::MakeCanvas => {
                facts.made_canvas = Some(if done { Some("session".to_owned()) } else { None });
            }
            BootstrapStep::PublishCanvas => {
                facts.published_canvas = Some(if done {
                    Publication::Outcome(CatalogPublishOutcome::Inserted)
                } else {
                    Publication::Outcome(CatalogPublishOutcome::Conflict)
                });
            }
            BootstrapStep::ListDocuments(_) => facts.documents = Some(done.then_some(false)),
            BootstrapStep::ComposePdf(session) => {
                assert_eq!(session, "session");
                facts.composed = Some(if done {
                    Ok(())
                } else {
                    Err(ServerError::Bootstrap { message: "bad PDF".to_owned() })
                });
            }
            BootstrapStep::PublishDocument => {
                facts.published_document = Some(if done {
                    Publication::Outcome(CatalogPublishOutcome::Existing)
                } else {
                    Publication::Failed
                });
            }
            BootstrapStep::InsertDocument => facts.inserted_document = Some(done),
            BootstrapStep::MakeCanvasCatalog => facts.canvas_catalog = Some(done),
            BootstrapStep::RegisterCanvasHandlers => facts.canvas_handlers = Some(done),
            BootstrapStep::MakeDelivery => facts.delivery = Some(Ok(())),
            BootstrapStep::RegisterDocumentQueries => facts.document_queries = Some(done),
            BootstrapStep::RegisterHistoryQuery => facts.history_query = Some(done),
            BootstrapStep::RegisterAccessQuery => facts.access_query = Some(done),
            BootstrapStep::ListForValidation(_) => facts.listed = Some(done.then_some(1)),
            BootstrapStep::FindAsset(index) => {
                assert_eq!(index, facts.assets.len());
                facts.assets.push(if done { AssetCheck::Found } else { AssetCheck::Missing });
            }
            BootstrapStep::ReadView(index) => {
                assert_eq!(index, facts.views.len());
                facts.views.push(done);
            }
            BootstrapStep::RegisterOffline => facts.offline_registered = true,
            BootstrapStep::Unregister => facts.unregistered = true,
        }
    }
}

fn failure(result: Result<(), ServerError>) -> String {
    match result {
        Err(ServerError::Bootstrap { message }) | Err(ServerError::NodeLifecycle { message }) => {
            message
        }
        other => panic!("unexpected {other:?}"),
    }
}

#[test]
fn production_composition_has_no_development_parts() {
    let (steps, outcome) = compose(config(), None);
    assert_eq!(outcome, Ok(()));
    assert_eq!(
        steps,
        [
            "RegisterStarting",
            "MakeCanvasCatalog",
            "RegisterDocumentQueries",
            "RegisterHistoryQuery",
        ]
    );
}

#[test]
fn registers_echo_handler_only_in_development_mode() {
    let (steps, outcome) = compose(config().with_development_mode(true), None);
    assert_eq!(outcome, Ok(()));
    assert_eq!(
        steps,
        [
            "RegisterStarting",
            "RegisterEchoHandler",
            "MakeCanvas",
            "ListDocuments",
            "MakeCanvasCatalog",
            "RegisterCanvasHandlers",
            "RegisterDocumentQueries",
            "RegisterHistoryQuery",
            "ListForValidation",
            "ReadView",
        ]
    );
}

#[test]
fn production_ignores_development_pdf_path() {
    let config = config().with_development_pdf_path("path-must-not-be-read.pdf".to_owned());
    let (steps, outcome) = compose(config, None);
    assert_eq!(outcome, Ok(()));
    assert!(!steps.iter().any(|step| step == "ComposePdf"));
}

#[test]
fn invalid_development_pdf_unregisters_starting_node() {
    let config = config()
        .with_development_mode(true)
        .with_development_pdf_path("invalid.pdf".to_owned());
    let (steps, outcome) = compose(config, Some("ComposePdf"));
    assert_eq!(failure(outcome), "bad PDF");
    assert_eq!(
        steps[steps.len() - 3..].to_vec(),
        ["ComposePdf", "RegisterOffline", "Unregister"]
    );
}

#[test]
fn persistent_catalog_missing_source_asset_blocks_bootstrap() {
    let config =
        config().with_development_mode(true).with_catalog_store_path("catalog".to_owned());
    let (steps, outcome) = compose(config, Some("FindAsset"));
    assert_eq!(failure(outcome), "Document references a missing published Asset");
    assert_eq!(
        steps[steps.len() - 3..].to_vec(),
        ["FindAsset", "RegisterOffline", "Unregister"]
    );
}

#[test]
fn every_failed_step_is_named() {
    let persistent = || {
        config()
            .with_development_mode(true)
            .with_asset_store_root("assets".to_owned())
            .with_catalog_store_path("catalog".to_owned())
            .with_development_pdf_path("sample.pdf".to_owned())
    };
    let expected = [
        ("RegisterStarting", "node state registration failed"),
        ("OpenAssetStore", "persistent Asset store initialization failed"),
        ("OpenCatalogStore", "persistent Catalog initialization failed"),
        ("RegisterEchoHandler", "development handler registration failed"),
        ("GetBinding", "Development bootstrap binding lookup failed"),
        ("MakeCanvas", "development Canvas configuration is invalid"),
        ("PublishCanvas", "Development Canvas identity conflict"),
        ("ListDocuments", "Development Document catalog lookup failed"),
        ("PublishDocument", "Development Document publication failed"),
        ("RegisterCanvasHandlers", "Canvas handler registration failed"),
        ("RegisterDocumentQueries", "Document Query handler registration failed"),
        ("RegisterHistoryQuery", "Canvas history Query registration failed"),
        ("ListForValidation", "Document catalog validation failed"),
        ("ReadView", "Document read model is inconsistent"),
    ];
    for (step, message) in expected {
        let (steps, outcome) = compose(persistent(), Some(step));
        assert_eq!(failure(outcome), message);
        let taken_back = steps.iter().filter(|name| *name == "Unregister").count();
        assert_eq!(taken_back, usize::from(step != "RegisterStarting"));
    }
    let memory = config()
        .with_development_mode(true)
        .with_development_pdf_path("sample.pdf".to_owned());
    let (_, outcome) = compose(memory, Some("InsertDocument"));
    assert_eq!(failure(outcome), "development Document identity collision");
    let (_, outcome) = compose(config(), Some("MakeCanvasCatalog"));
    assert_eq!(failure(outcome), "duplicate Canvas identity");
    assert!(compose(config().with_subscription_queue_capacity(0), None).1.is_err());
}

#[test]
fn persistent_development_canvas_binding_survives_reopen() {
    let bootstrap = Bootstrap::new(
        config().with_development_mode(true).with_catalog_store_path("catalog".to_owned()),
    );
    let mut facts = BootstrapFacts {
        registered: Some(true),
        catalog_store: Some(true),
        echo_handler: Some(true),
        binding: Some(BindingFact::Bound(BootstrapBinding {
            session_id: "bound".to_owned(),
            canvas_id: "canvas".to_owned(),
        })),
        ..BootstrapFacts::new()
    };
    match bootstrap.initialize_with(&facts) {
        BootstrapDecision::Take(BootstrapStep::GetBoundCanvas(id)) => assert_eq!(id, "canvas"),
        other => panic!("unexpected {other:?}"),
    }
    facts.bound_canvas = Some(CanvasLookup::Found("bound".to_owned()));
    assert!(matches!(
        bootstrap.initialize_with(&facts),
        BootstrapDecision::Take(BootstrapStep::ListDocuments(None))
    ));
    assert!(matches!(
        bootstrap.read_scope(&facts),
        ReadScope::OnlySession(session) if session == "bound"
    ));
    for (lookup, message) in [
        (CanvasLookup::Failed, "Development Canvas lookup failed"),
        (
            CanvasLookup::Missing,
            "Development bootstrap binding references a missing Canvas",
        ),
        (
            CanvasLookup::Found("other".to_owned()),
            "Development bootstrap Session mismatch",
        ),
    ] {
        facts.bound_canvas = Some(lookup);
        facts.offline_registered = true;
        facts.unregistered = true;
        match bootstrap.initialize_with(&facts) {
            BootstrapDecision::Done(outcome) => assert_eq!(failure(outcome), message),
            other => panic!("unexpected {other:?}"),
        }
    }
    assert!(matches!(
        Bootstrap::new(config()).read_scope(&BootstrapFacts::new()),
        ReadScope::RejectAll
    ));
}

#[test]
fn transport_comes_before_the_composition() {
    let mut facts = TransportFacts { event_store: None, event_bus: None };
    let memory = Bootstrap::new(config());
    assert!(matches!(memory.initialize(facts), TransportStep::MakeEventBus(64)));
    facts.event_bus = Some(true);
    assert!(matches!(memory.initialize(facts), TransportStep::Done));
    facts.event_bus = Some(false);
    assert!(matches!(
        memory.initialize(facts),
        TransportStep::Fail(ServerError::Bootstrap { message })
            if message == "event bus initialization failed"
    ));
    let persistent = Bootstrap::new(config().with_event_store_path("events".to_owned()));
    facts.event_bus = None;
    assert!(matches!(persistent.initialize(facts), TransportStep::OpenEventStore));
    facts.event_store = Some(false);
    assert!(matches!(
        persistent.initialize(facts),
        TransportStep::Fail(ServerError::Bootstrap { message })
            if message == "SQLite EventStore initialization failed"
    ));
    facts.event_store = Some(true);
    assert!(matches!(persistent.initialize(facts), TransportStep::MakeEventBus(64)));
}

#[test]
fn development_pdf_is_verified_before_it_is_composed() {
    let none = || PdfFacts {
        length: None,
        bytes: None,
        described: None,
        ingested: None,
        inspected: None,
        described_document: None,
        composed: None,
    };
    let message = |facts: PdfFacts, has_store: bool| {
        match bootstrap_development_pdf(LIMITS, has_store, &facts) {
            PdfStep::Fail(ServerError::Bootstrap { message }) => message,
            other => panic!("unexpected {other:?}"),
        }
    };
    let step = |facts: &PdfFacts| bootstrap_development_pdf(LIMITS, true, facts);
    let mut facts = none();
    assert!(matches!(step(&facts), PdfStep::ReadMetadata));
    assert_eq!(
        message(PdfFacts { length: Some(None), ..none() }, true),
        "development PDF metadata could not be read"
    );
    assert_eq!(
        message(PdfFacts { length: Some(Some(101)), ..none() }, true),
        "development PDF exceeds the inspection size limit"
    );
    facts.length = Some(Some(100));
    assert!(matches!(step(&facts), PdfStep::ReadBytes));
    facts.bytes = Some(Some(b"abc".to_vec()));
    match step(&facts) {
        PdfStep::DescribeAsset { length, digest } => {
            assert_eq!(length, 100);
            assert_eq!(digest[..4].to_vec(), [0xba, 0x78, 0x16, 0xbf]);
            assert_eq!(digest.len(), 32);
        }
        other => panic!("unexpected {other:?}"),
    }
    facts.described = Some(true);
    assert!(matches!(step(&facts), PdfStep::Ingest));
    facts.ingested = Some(true);
    assert!(matches!(step(&facts), PdfStep::Inspect));
    facts.inspected = Some(Some(true));
    assert!(matches!(step(&facts), PdfStep::DescribeDocument));
    facts.described_document = Some(true);
    assert!(matches!(step(&facts), PdfStep::Compose));
    facts.composed = Some(true);
    assert!(matches!(step(&facts), PdfStep::Done));
    let whole = || PdfFacts {
        length: Some(Some(3)),
        bytes: Some(Some(b"abc".to_vec())),
        described: Some(true),
        ingested: Some(true),
        inspected: Some(Some(true)),
        described_document: Some(true),
        composed: Some(true),
    };
    assert_eq!(
        message(PdfFacts { bytes: Some(None), ..whole() }, true),
        "development PDF bytes could not be read"
    );
    assert_eq!(
        message(PdfFacts { described: Some(false), ..whole() }, true),
        "development PDF asset metadata is invalid"
    );
    assert_eq!(message(whole(), false), "no Asset ingest backend is available");
    assert_eq!(
        message(PdfFacts { ingested: Some(false), ..whole() }, true),
        "development PDF asset verification failed"
    );
    assert_eq!(
        message(PdfFacts { inspected: Some(None), ..whole() }, true),
        "development PDF inspection failed"
    );
    assert_eq!(
        message(PdfFacts { inspected: Some(Some(false)), ..whole() }, true),
        "development PDF metadata identity mismatch"
    );
    assert_eq!(
        message(PdfFacts { described_document: Some(false), ..whole() }, true),
        "development Document composition input is invalid"
    );
    assert_eq!(
        message(PdfFacts { composed: Some(false), ..whole() }, true),
        "development Document composition failed"
    );
}

fn starting_context() -> ServerContext {
    let mut lifecycle = ServerLifecycle::new();
    lifecycle.start().expect("start");
    ServerContext::new_composed("node".to_owned(), NodeState::Starting, lifecycle, false, false)
}

/// Runs a shutdown of the context and returns the node states that it registered.
fn finish(context: &mut ServerContext) -> Result<Vec<NodeState>, ServerError> {
    let mut states = Vec::new();
    let mut facts = ShutdownFacts {
        event_store: None,
        asset_store: None,
        catalog_store: None,
        unregistered: None,
    };
    loop {
        match context.finish_shutdown(facts) {
            ShutdownStep::CloseEventStore => facts.event_store = Some(true),
            ShutdownStep::CloseAssetStore => facts.asset_store = Some(true),
            ShutdownStep::CloseCatalogStore => facts.catalog_store = Some(true),
            ShutdownStep::RegisterOffline => {
                context.register_node_state(NodeState::Offline, true)?;
                states.push(NodeState::Offline);
            }
            ShutdownStep::Unregister => facts.unregistered = Some(true),
            ShutdownStep::Stop => {
                context.stop();
                return Ok(states);
            }
            ShutdownStep::Fail(error) => return Err(error),
        }
    }
}

#[test]
fn shuts_down_and_unregisters_node() {
    let mut context = starting_context();
    assert_eq!(context.lifecycle().state(), LifecycleState::Starting);
    assert_eq!(context.health().state(), HealthState::Starting);
    assert!(!context.health().is_ready());
    context.mark_ready(true).expect("ready");
    assert_eq!(context.node_state(), NodeState::Ready);
    assert!(context.health().is_ready());
    assert_eq!(context.begin_shutdown(), Ok(true));
    context.register_node_state(NodeState::Draining, true).expect("draining");
    assert!(!context.health().is_ready());
    assert_eq!(context.begin_shutdown(), Ok(false));
    assert_eq!(finish(&mut context), Ok(vec![NodeState::Offline]));
    assert_eq!(context.lifecycle().state(), LifecycleState::Stopped);
    assert_eq!(context.health().state(), HealthState::Stopped);
    assert_eq!(context.node_id(), "node");
}

#[test]
fn failed_shutdown_steps_are_named() {
    let mut lifecycle = ServerLifecycle::new();
    lifecycle.start().expect("start");
    let context =
        ServerContext::new_composed("node".to_owned(), NodeState::Offline, lifecycle, true, true);
    let whole = ShutdownFacts {
        event_store: Some(true),
        asset_store: Some(true),
        catalog_store: Some(true),
        unregistered: Some(true),
    };
    let message = |facts: ShutdownFacts| match context.finish_shutdown(facts) {
        ShutdownStep::Fail(ServerError::Shutdown { message }) => message,
        ShutdownStep::Fail(ServerError::NodeLifecycle { message }) => message,
        other => panic!("unexpected {other:?}"),
    };
    assert_eq!(
        message(ShutdownFacts { event_store: Some(false), ..whole }),
        "event store shutdown failed"
    );
    assert_eq!(
        message(ShutdownFacts { asset_store: Some(false), ..whole }),
        "asset store shutdown failed"
    );
    assert_eq!(
        message(ShutdownFacts { catalog_store: Some(false), ..whole }),
        "catalog store shutdown failed"
    );
    assert_eq!(
        message(ShutdownFacts { unregistered: Some(false), ..whole }),
        "node unregister failed"
    );
    let mut ready = ServerContext::new("node".to_owned());
    assert_eq!(ready.node_state(), NodeState::Ready);
    assert!(ready.health().is_ready());
    assert!(matches!(
        ready.mark_ready(false),
        Err(ServerError::NodeLifecycle { message }) if message == "node state registration failed"
    ));
    assert!(matches!(ready.mark_ready(true), Err(ServerError::Lifecycle(_))));
}

fn start_facts() -> StartFacts {
    StartFacts {
        started: false,
        delivery_composed: true,
        websocket_bound: None,
        asset_bound: None,
        ready: None,
        cancelled: false,
        websocket_stopped: false,
        asset_stopped: false,
        rolled_back: false,
    }
}

/// Runs a startup and returns its steps, failing at the given one.
fn start(config: ServerConfig, fail: &str) -> (Vec<String>, Result<(), ServerError>) {
    let application = ServerApplication::new(config);
    let mut facts = start_facts();
    let mut steps = Vec::new();
    let outcome = |step: &str| {
        if step == fail {
            Some(Err(ServerError::Listener { message: step.to_owned() }))
        } else {
            Some(Ok(()))
        }
    };
    loop {
        let step = application.start(&facts);
        steps.push(format!("{step:?}").split('(').next().unwrap().to_owned());
        match step {
            StartStep::BindWebSocket => facts.websocket_bound = outcome("BindWebSocket"),
            StartStep::BindAsset => facts.asset_bound = outcome("BindAsset"),
            StartStep::MarkReady => facts.ready = outcome("MarkReady"),
            StartStep::Cancel => facts.cancelled = true,
            StartStep::StopWebSocket => facts.websocket_stopped = true,
            StartStep::StopAsset => facts.asset_stopped = true,
            StartStep::RollBack => facts.rolled_back = true,
            StartStep::Done(outcome) => return (steps, outcome),
        }
    }
}

#[test]
fn bind_failure_rolls_starting_node_back_without_ready() {
    let (steps, outcome) = start(config(), "BindWebSocket");
    assert!(matches!(outcome, Err(ServerError::Listener { .. })));
    assert_eq!(steps, ["BindWebSocket", "RollBack", "Done"]);
    assert_eq!(start(config(), "").0, ["BindWebSocket", "MarkReady", "Done"]);
}

#[test]
fn asset_bind_failure_closes_already_bound_websocket() {
    let delivering = || {
        let delivery = config().asset_delivery.with_enabled(true);
        config().with_asset_delivery(delivery)
    };
    let (steps, outcome) = start(delivering(), "BindAsset");
    assert!(outcome.is_err());
    assert_eq!(
        steps,
        ["BindWebSocket", "BindAsset", "StopWebSocket", "RollBack", "Done"]
    );
    let (steps, outcome) = start(delivering(), "MarkReady");
    assert!(outcome.is_err());
    assert_eq!(
        steps,
        [
            "BindWebSocket",
            "BindAsset",
            "MarkReady",
            "Cancel",
            "StopWebSocket",
            "StopAsset",
            "RollBack",
            "Done",
        ]
    );
    let uncomposed = StartFacts {
        delivery_composed: false,
        websocket_bound: Some(Ok(())),
        websocket_stopped: true,
        rolled_back: true,
        ..start_facts()
    };
    assert!(matches!(
        ServerApplication::new(delivering()).start(&uncomposed),
        StartStep::Done(Err(ServerError::Bootstrap { message }))
            if message == "Asset Delivery service was not composed"
    ));
    let started = StartFacts { started: true, ..start_facts() };
    assert!(matches!(
        ServerApplication::new(config()).start(&started),
        StartStep::Done(Ok(()))
    ));
}

#[test]
fn shutdown_drains_listeners_before_the_context_ends() {
    let application = ServerApplication::new(config());
    let period = application.config.websocket_listener.shutdown_grace_period_milliseconds;
    let mut facts = StopFacts {
        stopped: false,
        has_websocket: true,
        has_asset: true,
        began: None,
        cancelled: false,
        websocket_drained: false,
        asset_drained: false,
        finished: None,
    };
    assert!(matches!(application.shutdown(&facts), StopStep::Begin));
    facts.began = Some(Ok(()));
    assert!(matches!(application.shutdown(&facts), StopStep::Cancel));
    facts.cancelled = true;
    assert!(matches!(
        application.shutdown(&facts),
        StopStep::DrainWebSocket(grace) if grace == period
    ));
    facts.websocket_drained = true;
    assert!(matches!(
        application.shutdown(&facts),
        StopStep::DrainAsset(grace) if grace == period
    ));
    facts.asset_drained = true;
    assert!(matches!(application.shutdown(&facts), StopStep::Finish));
    facts.finished = Some(Ok(()));
    assert!(matches!(application.shutdown(&facts), StopStep::Done(Ok(()))));
    facts.stopped = true;
    facts.finished = None;
    assert!(matches!(application.shutdown(&facts), StopStep::Done(Ok(()))));
    let error = || Err(ServerError::Shutdown { message: "late".to_owned() });
    assert_eq!(application.serve(Ok(()), error()), error());
    assert_eq!(application.serve(Ok(()), Ok(())), Ok(()));
    assert_eq!(
        application.serve(Err(ServerError::Listener { message: "a".to_owned() }), error()),
        Err(ServerError::Listener { message: "a".to_owned() })
    );
}

#[test]
fn websocket_listener_rejects_paths_other_than_ws() {
    assert_eq!(check_path("/ws", "/ws"), Ok(()));
    let rejection = check_path("/other", "/ws").expect_err("other path");
    assert_eq!(rejection.status, 404);
    assert_eq!(rejection.body, "WebSocket path not found");
    assert_eq!(rejection.connection, "close");
    assert!(check_path("/ws/", "/ws").is_err());
}

#[test]
fn websocket_listener_rejects_connections_at_capacity() {
    assert!(matches!(
        ConnectionSupervisor::new(0),
        Err(ServerError::Config { message })
            if message == "max connections must be greater than zero"
    ));
    let mut supervisor = ConnectionSupervisor::new(1).expect("supervisor");
    assert!(!supervisor.has_tasks());
    assert!(supervisor.try_spawn());
    assert!(!supervisor.try_spawn());
    assert_eq!(supervisor.task_count(), 1);
    supervisor.session_ended();
    assert!(supervisor.try_spawn());
    assert_eq!(supervisor.task_count(), 2);
    supervisor.join_next();
    assert_eq!(supervisor.task_count(), 1);
    supervisor.abort_all();
    assert_eq!(supervisor.task_count(), 0);
    assert!(supervisor.try_spawn());
}

#[test]
fn connections_end_with_their_session() {
    let none = ConnectionFacts {
        prepared: None,
        shutdown_handle: None,
        restored: None,
        handshake: None,
        first: None,
        ended_after_shutdown: None,
    };
    let established = ConnectionFacts {
        prepared: Some(true),
        shutdown_handle: Some(true),
        restored: Some(true),
        handshake: Some(Handshake::Established),
        ..none
    };
    assert_eq!(run_connection(none), ConnectionStep::Prepare);
    assert_eq!(run_connection(established), ConnectionStep::RunSession);
    let ended = ConnectionFacts { first: Some(SessionEvent::Ended), ..established };
    assert_eq!(run_connection(ended), ConnectionStep::SessionResult);
    let cancelled = ConnectionFacts { first: Some(SessionEvent::Cancelled), ..established };
    assert_eq!(run_connection(cancelled), ConnectionStep::ShutDown);
    assert_eq!(
        run_connection(ConnectionFacts { ended_after_shutdown: Some(true), ..cancelled }),
        ConnectionStep::SessionResult
    );
    assert_eq!(
        run_connection(ConnectionFacts { ended_after_shutdown: Some(false), ..cancelled }),
        ConnectionStep::TaskFailure("WebSocket session did not stop after TCP shutdown")
    );
    for (facts, detail) in [
        (
            ConnectionFacts { prepared: Some(false), ..established },
            "could not prepare accepted TCP stream",
        ),
        (
            ConnectionFacts { shutdown_handle: Some(false), ..established },
            "could not create TCP shutdown handle",
        ),
        (
            ConnectionFacts { restored: Some(false), ..established },
            "could not restore accepted TCP stream",
        ),
        (
            ConnectionFacts { handshake: Some(Handshake::TimedOut), ..established },
            "WebSocket handshake timed out",
        ),
        (
            ConnectionFacts { handshake: Some(Handshake::Rejected), ..established },
            "WebSocket handshake rejected",
        ),
    ] {
        assert_eq!(run_connection(facts), ConnectionStep::FrameFailure(detail));
    }
}

#[test]
fn stores_before_publishing() {
    let mut dispatch = PipelineAdapter::new(vec!["a".to_owned(), "b".to_owned()]);
    let expected = [
        DispatchStep::Append(0),
        DispatchStep::Append(1),
        DispatchStep::Publish(0),
        DispatchStep::Publish(1),
    ];
    for step in expected {
        assert_eq!(dispatch.next_step(), step);
        assert_eq!(dispatch.complete_step(true), Ok(()));
    }
    assert_eq!(dispatch.next_step(), DispatchStep::Done);
    assert_eq!(PipelineAdapter::new(Vec::new()).next_step(), DispatchStep::Done);
}

#[test]
fn storage_failure_does_not_publish_or_leak_backend_error() {
    let mut dispatch = PipelineAdapter::new(vec!["first".to_owned(), "second".to_owned()]);
    assert_eq!(dispatch.complete_step(true), Ok(()));
    assert_eq!(dispatch.next_step(), DispatchStep::Append(1));
    let error = dispatch.complete_step(false).expect_err("storage failure should stop dispatch");
    assert!(error.message.starts_with("event persistence failed for"));
    assert_eq!(error.message, "event persistence failed for `second`");
    let mut dispatch = PipelineAdapter::new(vec!["only".to_owned()]);
    assert_eq!(dispatch.complete_step(true), Ok(()));
    let error = dispatch.complete_step(false).expect_err("publication failure");
    assert_eq!(error.message, "event publication failed for `only`");
}

#[test]
fn runtime_failures_are_told_apart() {
    let rejected = |detail: &'static str| TransportExecutionError::Rejected { detail };
    let unavailable = |detail: &'static str| TransportExecutionError::Unavailable { detail };
    for fault in [
        RuntimeFault::HandlerNotFound,
        RuntimeFault::ValidationFailed,
        RuntimeFault::AuthorizationFailed,
    ] {
        assert_eq!(map_runtime_error(fault), rejected("action was rejected by the runtime"));
    }
    assert_eq!(
        map_runtime_error(RuntimeFault::HandlerFailed),
        rejected("action was rejected by the action handler")
    );
    for fault in [RuntimeFault::PipelineFailed, RuntimeFault::CoordinationFailed] {
        assert_eq!(map_runtime_error(fault), unavailable("event pipeline is unavailable"));
    }
    assert_eq!(
        map_runtime_error(RuntimeFault::CoordinationUnavailable),
        unavailable("execution coordination is unavailable")
    );
    assert_eq!(
        map_runtime_error(RuntimeFault::Other),
        TransportExecutionError::Failed { detail: "runtime execution failed" }
    );
    assert_eq!(
        map_sync_error(SyncFault::SubscriberLagged),
        EventSourceError::SubscriptionLagged
    );
    assert_eq!(
        map_sync_error(SyncFault::SubscriptionClosed),
        EventSourceError::SubscriptionClosed
    );
    for fault in [SyncFault::InvalidFilter, SyncFault::InvalidQueueCapacity] {
        assert_eq!(
            map_sync_error(fault),
            EventSourceError::Unavailable { detail: "event source rejected the subscription" }
        );
    }
    assert_eq!(
        map_sync_error(SyncFault::Other),
        EventSourceError::Failed { detail: "event source failed" }
    );
}

#[test]
fn production_rejects_what_is_not_configured() {
    assert_eq!(authorization_mode(&config()), AuthorizationMode::RejectAll);
    assert_eq!(
        authorization_mode(&config().with_development_mode(true)),
        AuthorizationMode::Development
    );
    let refusal = RejectAllActionAuthorizer.authorize("dev.echo").expect_err("action");
    assert_eq!(refusal.detail, "action authorization is not configured");
    let refusal = RejectAllIdentityResolver.resolve("development", "actor").expect_err("actor");
    assert_eq!(refusal.detail, "identity resolution is not configured");
    let refusal = RejectAllSubscriptionAuthorizer.authorize("session").expect_err("session");
    assert_eq!(refusal.detail, "subscription authorization is not configured");
    assert_eq!(
        RejectAllDocumentReadAuthorizer.authorize_session_read("session"),
        Err(ReadAuthorizationError::Unauthorized)
    );
}

#[test]
fn development_allows_only_what_it_knows() {
    let canvas = ["canvas.stroke.begin".to_owned()];
    let actions = DevelopmentActionAuthorizer;
    assert!(actions.authorize("dev.echo", &canvas).is_ok());
    assert!(actions.authorize("canvas.stroke.begin", &canvas).is_ok());
    let refusal = actions.authorize("admin.delete", &canvas).expect_err("action");
    assert_eq!(refusal.detail, "development action type is not enabled");
    let resolver = DevelopmentIdentityResolver;
    let binding = resolver.resolve("development", Some("actor".to_owned())).expect("actor");
    assert_eq!((binding.actor_id.as_str(), binding.source.as_str()), ("actor", "development"));
    assert_eq!(
        resolver.resolve("bearer", Some("actor".to_owned())).expect_err("scheme").detail,
        "unsupported development credential scheme"
    );
    assert_eq!(
        resolver.resolve("development", None).expect_err("actor").detail,
        "development credential is not a valid actor ID"
    );
    assert!(DevelopmentSubscriptionAuthorizer.authorize("actor", "session").is_ok());
    let reads = DevelopmentDocumentReadAuthorizer::new("session".to_owned());
    assert_eq!(reads.session_id(), "session");
    assert_eq!(reads.authorize_session_read("session"), Ok(()));
    assert_eq!(
        reads.authorize_session_read("other"),
        Err(ReadAuthorizationError::Unauthorized)
    );
    let drafts = DevelopmentEchoHandler.handle("{\"a\":1}".to_owned());
    assert_eq!(drafts.len(), 1);
    assert_eq!(drafts[0].event_type, "dev.echoed");
    assert_eq!(drafts[0].payload, "{\"a\":1}");
}
