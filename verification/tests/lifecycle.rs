//! Process lifecycle, health and errors.

use orbitrelay::error::{LifecycleError, ServerError};
use orbitrelay::health::HealthState;
use orbitrelay::lifecycle::{LifecycleState, ServerLifecycle};

#[test]
fn follows_the_complete_lifecycle() {
    let mut lifecycle = ServerLifecycle::new();

    assert_eq!(lifecycle.state(), LifecycleState::Stopped);
    lifecycle.start().expect("start should succeed");
    assert_eq!(lifecycle.state(), LifecycleState::Starting);
    lifecycle.ready().expect("ready should succeed");
    assert_eq!(lifecycle.state(), LifecycleState::Ready);
    lifecycle.begin_shutdown().expect("shutdown should begin");
    assert_eq!(lifecycle.state(), LifecycleState::Draining);
    lifecycle.stop().expect("stop should succeed");
    assert_eq!(lifecycle.state(), LifecycleState::Stopped);
}

#[test]
fn rejects_invalid_state_transitions() {
    let mut lifecycle = ServerLifecycle::new();

    let error = lifecycle.ready().expect_err("stopped cannot become ready");
    assert_eq!(error.from(), LifecycleState::Stopped);
    assert_eq!(error.to(), LifecycleState::Ready);
    assert_eq!(lifecycle.state(), LifecycleState::Stopped);
}

#[test]
fn exposes_health_for_each_lifecycle_state() {
    let mut lifecycle = ServerLifecycle::new();

    assert_eq!(lifecycle.health().state(), HealthState::Stopped);
    lifecycle.start().expect("start should succeed");
    assert_eq!(lifecycle.health().state(), HealthState::Starting);
    lifecycle.ready().expect("ready should succeed");
    assert!(lifecycle.health().is_ready());
    lifecycle.begin_shutdown().expect("shutdown should begin");
    assert_eq!(lifecycle.health().state(), HealthState::Stopping);
    lifecycle.stop().expect("stop should succeed");
    assert_eq!(lifecycle.health().state(), HealthState::Stopped);
    assert_ne!(lifecycle.health().state(), HealthState::Degraded);
}

#[test]
fn formats_without_exposing_backend_details() {
    let error = ServerError::Bootstrap {
        message: "dependency initialization failed".to_owned(),
    };

    assert_eq!(
        error.message(),
        "server bootstrap failed: dependency initialization failed"
    );
}

#[test]
fn every_server_error_names_what_failed() {
    let shown = [
        ServerError::Lifecycle(LifecycleError {
            from: LifecycleState::Stopped,
            to: LifecycleState::Draining,
        }),
        ServerError::Config { message: "m".to_owned() },
        ServerError::NodeLifecycle { message: "m".to_owned() },
        ServerError::Listener { message: "m".to_owned() },
        ServerError::Connection { message: "m".to_owned() },
        ServerError::Shutdown { message: "m".to_owned() },
    ]
    .iter()
    .map(|error| error.message())
    .collect::<Vec<_>>();
    assert_eq!(
        shown,
        vec![
            "invalid server lifecycle transition from `stopped` to `draining`",
            "invalid server configuration: m",
            "node lifecycle failed: m",
            "WebSocket listener failed: m",
            "WebSocket connection failed: m",
            "server shutdown failed: m",
        ]
    );
}

#[test]
fn a_refused_transition_changes_neither_state_nor_health() {
    let mut lifecycle = ServerLifecycle::default();
    assert!(lifecycle.stop().is_err());
    assert!(lifecycle.begin_shutdown().is_err());
    assert_eq!(lifecycle.state(), LifecycleState::Stopped);
    lifecycle.start().expect("start");
    lifecycle.begin_shutdown().expect("a starting process can shut down");
    let error = lifecycle.ready().expect_err("draining cannot become ready");
    assert_eq!(error, LifecycleError { from: LifecycleState::Draining, to: LifecycleState::Ready });
    assert_eq!(lifecycle.health().state(), HealthState::Stopping);
}
