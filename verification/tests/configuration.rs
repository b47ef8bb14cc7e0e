//! Process configuration and its environment overrides.

use orbitrelay::address::{IpAddress, SocketAddress};
use orbitrelay::canvas_history::{DEFAULT_HISTORY_STORE_SCAN_LIMIT, MAX_HISTORY_STORE_SCAN_LIMIT};
use orbitrelay::config::{
    DevelopmentCanvasConfig, Dimension, PdfInspectionLimits, ServerConfig, WebSocketAdapterConfig,
    WebSocketListenerConfig,
};
use orbitrelay::delivery_config::AssetDeliveryConfig;
use orbitrelay::environment::{parse_bool_env, parse_number_env, EnvReadings, EnvVariable};
use orbitrelay::error::ServerError;
use orbitrelay::event_store::DEFAULT_COMMAND_QUEUE_CAPACITY;

const ADAPTER: WebSocketAdapterConfig =
    WebSocketAdapterConfig { max_message_bytes: 1024 * 1024, accepted: true };
const LIMITS: PdfInspectionLimits = PdfInspectionLimits { max_asset_bytes: 1 << 26 };

fn default_config() -> ServerConfig {
    ServerConfig::default_with(ADAPTER, LIMITS)
}

fn length(value: f64) -> Dimension {
    Dimension { bits: value.to_bits() }
}

fn readings() -> EnvReadings {
    EnvReadings {
        node_id: None,
        session_id: None,
        canvas_id: None,
        layer_id: None,
        width: None,
        height: None,
        bind_addr: None,
        asset_listen_addr: None,
    }
}

fn environment(variables: &[(&str, &str)]) -> Vec<EnvVariable> {
    variables
        .iter()
        .map(|(name, value)| EnvVariable {
            name: (*name).to_owned(),
            value: Some((*value).to_owned()),
        })
        .collect()
}

fn load(variables: &[(&str, &str)]) -> Result<ServerConfig, ServerError> {
    ServerConfig::load(&environment(variables), &readings(), ADAPTER, LIMITS)
}

fn config_message(result: Result<ServerConfig, ServerError>) -> String {
    match result {
        Err(ServerError::Config { message }) => message,
        other => panic!("expected a configuration error, got {other:?}"),
    }
}

#[test]
fn default_configuration_is_valid() {
    let config = default_config();

    config.validate().expect("default config should be valid");
    assert!(config.node_id().is_none());
    assert!(!config.development_mode());
    assert_eq!(config.subscription_queue_capacity(), 64);
    assert_eq!(
        config.sqlite_command_queue_capacity(),
        DEFAULT_COMMAND_QUEUE_CAPACITY
    );
    assert!(config.event_store_path().is_none());
    assert_eq!(
        config.history_store_scan_limit(),
        DEFAULT_HISTORY_STORE_SCAN_LIMIT
    );
}

#[test]
fn rejects_zero_queue_capacity() {
    let error = default_config()
        .with_subscription_queue_capacity(0)
        .validate()
        .expect_err("zero capacity should be rejected");

    assert!(matches!(error, ServerError::Config { .. }));

    assert!(default_config()
        .with_sqlite_command_queue_capacity(0)
        .validate()
        .is_err());
}

#[test]
fn history_store_scan_limit_is_bounded() {
    assert!(default_config()
        .with_history_store_scan_limit(0)
        .validate()
        .is_err());
    assert!(default_config()
        .with_history_store_scan_limit(MAX_HISTORY_STORE_SCAN_LIMIT + 1)
        .validate()
        .is_err());
    assert!(default_config()
        .with_history_store_scan_limit(MAX_HISTORY_STORE_SCAN_LIMIT)
        .validate()
        .is_ok());
}

#[test]
fn validates_development_canvas_dimensions() {
    assert!(DevelopmentCanvasConfig::new()
        .with_size(length(1920.0), length(1080.0))
        .validate()
        .is_ok());
    for (width, height) in [
        (0.0, 100.0),
        (100.0, -1.0),
        (f64::NAN, 100.0),
        (100.0, f64::INFINITY),
    ] {
        assert!(DevelopmentCanvasConfig::new()
            .with_size(length(width), length(height))
            .validate()
            .is_err());
    }
}

#[test]
fn development_pdf_path_is_optional_and_server_local() {
    let config = default_config()
        .with_development_mode(true)
        .with_development_pdf_path("fixtures/lesson.pdf".to_owned());
    assert_eq!(
        config.development_pdf_path(),
        Some("fixtures/lesson.pdf")
    );
    assert!(default_config().development_pdf_path().is_none());
}

#[test]
fn persistent_store_paths_are_independent_optional_settings() {
    let config = default_config()
        .with_event_store_path("events.sqlite".to_owned())
        .with_asset_store_root("assets".to_owned())
        .with_catalog_store_path("catalog.sqlite".to_owned());
    assert_eq!(
        config.event_store_path(),
        Some("events.sqlite")
    );
    assert_eq!(
        config.asset_store_root(),
        Some("assets")
    );
    assert_eq!(
        config.catalog_store_path(),
        Some("catalog.sqlite")
    );
    assert!(default_config()
        .without_event_store_path()
        .without_asset_store_root()
        .without_catalog_store_path()
        .validate()
        .is_ok());
}

#[test]
fn dimensions_are_classified_as_floating_point_does() {
    for value in [
        1920.0,
        1080.0,
        f64::MIN_POSITIVE,
        5e-324,
        f64::MAX,
        0.0,
        -0.0,
        -1.0,
        f64::INFINITY,
        f64::NEG_INFINITY,
        f64::NAN,
        -f64::NAN,
    ] {
        assert_eq!(
            length(value).is_finite_positive(),
            value.is_finite() && value > 0.0,
            "{value}"
        );
    }
    let canvas = DevelopmentCanvasConfig::default();
    assert_eq!(canvas.width(), length(1920.0));
    assert_eq!(canvas.height(), length(1080.0));
}

#[test]
fn each_invalid_setting_is_named() {
    let message = |config: ServerConfig| match config.validate() {
        Err(ServerError::Config { message }) => message,
        other => panic!("unexpected {other:?}"),
    };
    let listener = |change: fn(WebSocketListenerConfig) -> WebSocketListenerConfig| {
        default_config().with_websocket_listener(change(WebSocketListenerConfig::default()))
    };
    assert_eq!(
        message(default_config().with_history_store_scan_limit(257)),
        "history Store scan limit must be between 1 and 256"
    );
    assert_eq!(
        message(listener(|listener| listener.with_websocket_path("ws".to_owned()))),
        "websocket path must start with `/`"
    );
    assert_eq!(
        message(listener(|listener| listener.with_websocket_path(String::new()))),
        "websocket path must start with `/`"
    );
    assert_eq!(
        message(listener(|listener| listener.with_max_connections(0))),
        "max connections must be greater than zero"
    );
    assert_eq!(
        message(listener(|listener| listener.with_handshake_timeout_milliseconds(0))),
        "handshake timeout must be greater than zero"
    );
    assert_eq!(
        message(listener(|listener| listener.with_shutdown_grace_period_milliseconds(0))),
        "shutdown grace period must be greater than zero"
    );
    assert_eq!(
        message(default_config().with_websocket_adapter(WebSocketAdapterConfig {
            max_message_bytes: 0,
            accepted: false,
        })),
        "invalid WebSocket adapter configuration"
    );
    assert_eq!(
        message(default_config().with_event_store_path(String::new())),
        "event store path must not be empty"
    );
    assert_eq!(
        message(default_config().with_asset_store_root(String::new())),
        "asset store root must not be empty"
    );
    assert_eq!(
        message(default_config().with_catalog_store_path(String::new())),
        "catalog store path must not be empty"
    );
    assert_eq!(
        message(default_config().with_sqlite_command_queue_capacity(0)),
        "SQLite command queue capacity must be greater than zero"
    );
    assert_eq!(
        message(default_config().with_asset_delivery(
            AssetDeliveryConfig::default().with_max_grants(0)
        )),
        "asset delivery max grants must be greater than zero"
    );
}

#[test]
fn an_empty_environment_loads_the_default() {
    assert_eq!(load(&[]).expect("load"), default_config());
    assert_eq!(
        load(&[("PATH", "/bin"), ("ORBITRELAY_UNKNOWN", "x")]).expect("load"),
        default_config()
    );
}

#[test]
fn environment_overrides_are_read() {
    let mut env = environment(&[
        ("ORBITRELAY_NODE_ID", "node-text"),
        ("ORBITRELAY_SUBSCRIPTION_QUEUE_CAPACITY", "7"),
        ("ORBITRELAY_HISTORY_STORE_SCAN_LIMIT", "12"),
        ("ORBITRELAY_EVENT_STORE_PATH", "events.sqlite"),
        ("ORBITRELAY_ASSET_STORE_DIR", "assets"),
        ("ORBITRELAY_CATALOG_STORE_PATH", "catalog.sqlite"),
        ("ORBITRELAY_SQLITE_COMMAND_QUEUE_CAPACITY", "9"),
        ("ORBITRELAY_DEVELOPMENT_MODE", "1"),
        ("ORBITRELAY_DEVELOPMENT_PDF_PATH", "lesson.pdf"),
        ("ORBITRELAY_DEVELOPMENT_CANVAS_WIDTH", "640"),
        ("ORBITRELAY_BIND_ADDR", "0.0.0.0:9000"),
        ("ORBITRELAY_WEBSOCKET_PATH", "/relay"),
        ("ORBITRELAY_MAX_CONNECTIONS", "3"),
        ("ORBITRELAY_HANDSHAKE_TIMEOUT_MILLISECONDS", "11"),
        ("ORBITRELAY_SHUTDOWN_GRACE_PERIOD_MILLISECONDS", "13"),
        ("ORBITRELAY_ASSET_DELIVERY_ENABLED", "true"),
        ("ORBITRELAY_ASSET_PUBLIC_BASE_URL", "https://relay.example"),
        ("ORBITRELAY_ASSET_MAX_CONNECTIONS", "4"),
        ("ORBITRELAY_ASSET_MAX_ACTIVE_DOWNLOADS", "5"),
        ("ORBITRELAY_ASSET_CHUNK_SIZE", "6"),
        ("ORBITRELAY_ASSET_IDLE_TIMEOUT_MILLISECONDS", "8"),
        ("ORBITRELAY_ASSET_GRANT_TTL_SECONDS", "60"),
        ("ORBITRELAY_ASSET_MAX_GRANTS", "10"),
        ("ORBITRELAY_ASSET_ALLOWED_ORIGINS", " https://a.example ,, https://b.example,"),
    ]);
    env.push(EnvVariable { name: "OTHER".to_owned(), value: None });
    let read = EnvReadings {
        node_id: Some("node-1".to_owned()),
        width: Some(length(640.0)),
        bind_addr: Some(SocketAddress::v4(0, 9000)),
        ..readings()
    };
    let config = ServerConfig::load(&env, &read, ADAPTER, LIMITS).expect("load");
    assert_eq!(config.node_id(), Some("node-1"));
    assert_eq!(config.subscription_queue_capacity(), 7);
    assert_eq!(config.history_store_scan_limit(), 12);
    assert_eq!(config.event_store_path(), Some("events.sqlite"));
    assert_eq!(config.asset_store_root(), Some("assets"));
    assert_eq!(config.catalog_store_path(), Some("catalog.sqlite"));
    assert_eq!(config.sqlite_command_queue_capacity(), 9);
    assert!(config.development_mode());
    assert_eq!(config.development_pdf_path(), Some("lesson.pdf"));
    assert_eq!(config.development_canvas().width(), length(640.0));
    assert_eq!(config.development_canvas().height(), length(1080.0));
    let listener = config.websocket_listener();
    assert_eq!(listener.bind_addr(), SocketAddress::v4(0, 9000));
    assert_eq!(listener.websocket_path(), "/relay");
    assert_eq!(listener.max_connections(), 3);
    assert_eq!(listener.handshake_timeout_milliseconds(), 11);
    assert_eq!(listener.shutdown_grace_period_milliseconds(), 13);
    let delivery = config.asset_delivery();
    assert!(delivery.enabled());
    assert_eq!(delivery.public_base_url(), Some("https://relay.example"));
    assert_eq!(delivery.max_connections(), 4);
    assert_eq!(delivery.max_active_downloads(), 5);
    assert_eq!(delivery.chunk_size(), 6);
    assert_eq!(delivery.idle_timeout(), 8);
    assert_eq!(delivery.grant_ttl_seconds(), 60);
    assert_eq!(delivery.max_grants(), 10);
    assert_eq!(
        delivery.allowed_origins().to_vec(),
        vec!["https://a.example".to_owned(), "https://b.example".to_owned()]
    );
}

#[test]
fn the_first_unreadable_variable_is_the_error() {
    assert_eq!(
        config_message(load(&[
            ("ORBITRELAY_MAX_CONNECTIONS", "many"),
            ("ORBITRELAY_SUBSCRIPTION_QUEUE_CAPACITY", "-1"),
        ])),
        "ORBITRELAY_SUBSCRIPTION_QUEUE_CAPACITY must be a positive integer"
    );
    assert_eq!(
        config_message(load(&[("ORBITRELAY_NODE_ID", "not-an-id")])),
        "ORBITRELAY_NODE_ID is not a valid node ID"
    );
    assert_eq!(
        config_message(load(&[("ORBITRELAY_DEVELOPMENT_MODE", "yes")])),
        "ORBITRELAY_DEVELOPMENT_MODE must be true, false, 1, or 0"
    );
    assert_eq!(
        config_message(load(&[("ORBITRELAY_DEVELOPMENT_CANVAS_WIDTH", "wide")])),
        "ORBITRELAY_DEVELOPMENT_CANVAS_WIDTH must be a number"
    );
    assert_eq!(
        config_message(load(&[("ORBITRELAY_BIND_ADDR", "nowhere")])),
        "ORBITRELAY_BIND_ADDR is not a valid socket address"
    );
    assert_eq!(
        config_message(load(&[("ORBITRELAY_ASSET_GRANT_TTL_SECONDS", "9223372036854775808")])),
        "ORBITRELAY_ASSET_GRANT_TTL_SECONDS must be an integer"
    );
    assert_eq!(
        config_message(load(&[("ORBITRELAY_ASSET_GRANT_TTL_SECONDS", "-9223372036854775808")])),
        "asset delivery Grant TTL must be positive"
    );
    let env = vec![EnvVariable {
        name: "ORBITRELAY_WEBSOCKET_PATH".to_owned(),
        value: None,
    }];
    assert_eq!(
        config_message(ServerConfig::load(&env, &readings(), ADAPTER, LIMITS)),
        "ORBITRELAY_WEBSOCKET_PATH is not valid UTF-8"
    );
    assert_eq!(
        config_message(load(&[("ORBITRELAY_MAX_CONNECTIONS", "0")])),
        "max connections must be greater than zero"
    );
}

#[test]
fn production_ignores_the_development_pdf_variable() {
    let env = vec![EnvVariable {
        name: "ORBITRELAY_DEVELOPMENT_PDF_PATH".to_owned(),
        value: None,
    }];
    let config = ServerConfig::load(&env, &readings(), ADAPTER, LIMITS).expect("load");
    assert_eq!(config.development_pdf_path(), None);
    let mut env = env;
    env.extend(environment(&[("ORBITRELAY_DEVELOPMENT_MODE", "true")]));
    assert_eq!(
        config_message(ServerConfig::load(&env, &readings(), ADAPTER, LIMITS)),
        "ORBITRELAY_DEVELOPMENT_PDF_PATH is not valid UTF-8"
    );
}

#[test]
fn truth_values_and_numbers_are_read_strictly() {
    assert_eq!(parse_bool_env("V", "true").ok(), Some(true));
    assert_eq!(parse_bool_env("V", "0").ok(), Some(false));
    assert!(parse_bool_env("V", "True").is_err());
    assert_eq!(parse_number_env("V", "+65535", 65535).ok(), Some(65535));
    assert!(parse_number_env("V", "65536", 65535).is_err());
    assert!(parse_number_env("V", "", 65535).is_err());
    assert!(parse_number_env("V", "+", 65535).is_err());
    assert!(parse_number_env("V", "1 ", 65535).is_err());
}

#[test]
fn loopback_addresses_are_recognized() {
    assert!(IpAddress::V4(0x7f00_0001).is_loopback());
    assert!(IpAddress::V4(0x7fff_ffff).is_loopback());
    assert!(!IpAddress::V4(0x8000_0001).is_loopback());
    assert!(!IpAddress::V4(0).is_loopback());
    assert!(IpAddress::V6(1).is_loopback());
    assert!(!IpAddress::V6(0).is_loopback());
}
