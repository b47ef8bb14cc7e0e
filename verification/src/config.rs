//! Process-level configuration for the composition root.

use vstd::prelude::*;

use crate::address::{IpAddress, SocketAddress};
use crate::canvas_history::{DEFAULT_HISTORY_STORE_SCAN_LIMIT, MAX_HISTORY_STORE_SCAN_LIMIT};
use crate::delivery_config::{config_error, AssetDeliveryConfig};
use crate::error::{result_view, ServerError, ServerErrorView};
use crate::event_store::DEFAULT_COMMAND_QUEUE_CAPACITY;
use crate::text::{chars_of, decimal, decimal_text, optional_text};

verus! {

/// Default capacity for each in-memory event subscription queue.
pub const DEFAULT_SUBSCRIPTION_QUEUE_CAPACITY: usize = 64;

/// A length, as the bits of its IEEE 754 double-precision representation.
#[derive(Clone, Copy, Debug, PartialEq, Eq, Structural)]
pub struct Dimension {
    /// The bits, the sign highest.
    pub bits: u64,
}

impl Dimension {
    /// Whether the length is a finite number above zero: its sign is clear, and its bits lie
    /// between those of zero and those of infinity.
    pub open spec fn spec_is_finite_positive(self) -> bool {
        0 < self.bits < 0x7ff0_0000_0000_0000
    }

    /// Returns whether the length is a finite number above zero.
    pub fn is_finite_positive(self) -> (r: bool)
        ensures
            r == self.spec_is_finite_positive(),
    {
        0 < self.bits && self.bits < 0x7ff0_0000_0000_0000
    }
}

/// Development-only Canvas descriptor inputs.
#[derive(Clone, Debug, PartialEq, Eq)]
pub struct DevelopmentCanvasConfig {
    /// An optionally configured development Session identifier.
    pub session_id: Option<String>,
    /// An optionally configured development Canvas identifier.
    pub canvas_id: Option<String>,
    /// An optionally configured default Layer identifier.
    pub layer_id: Option<String>,
    /// The development Canvas width.
    pub width: Dimension,
    /// The development Canvas height.
    pub height: Dimension,
}

impl Default for DevelopmentCanvasConfig {
    fn default() -> (r: DevelopmentCanvasConfig)
        ensures
            r.is_default(),
    {
        DevelopmentCanvasConfig {
            session_id: None,
            canvas_id: None,
            layer_id: None,
            width: Dimension { bits: 0x409e_0000_0000_0000 },
            height: Dimension { bits: 0x4090_e000_0000_0000 },
        }
    }
}

impl DevelopmentCanvasConfig {
    /// The 1920x1080 Canvas without configured identifiers.
    pub open spec fn is_default(self) -> bool {
        &&& self.session_id is None
        &&& self.canvas_id is None
        &&& self.layer_id is None
        &&& self.width.bits == 0x409e_0000_0000_0000
        &&& self.height.bits == 0x4090_e000_0000_0000
    }

    /// Creates the default 1920x1080 development Canvas configuration.
    pub fn new() -> (r: DevelopmentCanvasConfig)
        ensures
            r.is_default(),
    {
        DevelopmentCanvasConfig::default()
    }

    /// Whether the configured dimensions can be used, and otherwise what is wrong.
    pub open spec fn verdict(self) -> Result<(), ServerErrorView> {
        if !self.width.spec_is_finite_positive() {
            config_error("development Canvas width must be finite and positive"@)
        } else if !self.height.spec_is_finite_positive() {
            config_error("development Canvas height must be finite and positive"@)
        } else {
            Ok(())
        }
    }

    /// Validates configured Canvas dimensions.
    pub fn validate(&self) -> (r: Result<(), ServerError>)
        ensures
            result_view(r) == self.verdict(),
    {
        if !self.width.is_finite_positive() {
            return Err(
                ServerError::config("development Canvas width must be finite and positive"),
            );
        }
        if !self.height.is_finite_positive() {
            return Err(
                ServerError::config("development Canvas height must be finite and positive"),
            );
        }
        Ok(())
    }

    /// Returns an optionally configured development Session identifier.
    pub fn session_id(&self) -> (r: Option<&str>)
        ensures
            match r {
                Some(text) => optional_text(self.session_id) == Some(text@),
                None => self.session_id is None,
            },
    {
        match &self.session_id {
            Some(text) => Some(text.as_str()),
            None => None,
        }
    }

    /// Returns an optionally configured development Canvas identifier.
    pub fn canvas_id(&self) -> (r: Option<&str>)
        ensures
            match r {
                Some(text) => optional_text(self.canvas_id) == Some(text@),
                None => self.canvas_id is None,
            },
    {
        match &self.canvas_id {
            Some(text) => Some(text.as_str()),
            None => None,
        }
    }

    /// Returns an optionally configured default Layer identifier.
    pub fn layer_id(&self) -> (r: Option<&str>)
        ensures
            match r {
                Some(text) => optional_text(self.layer_id) == Some(text@),
                None => self.layer_id is None,
            },
    {
        match &self.layer_id {
            Some(text) => Some(text.as_str()),
            None => None,
        }
    }

    /// Returns the development Canvas width.
    pub fn width(&self) -> (r: Dimension)
        ensures
            r == self.width,
    {
        self.width
    }

    /// Returns the development Canvas height.
    pub fn height(&self) -> (r: Dimension)
        ensures
            r == self.height,
    {
        self.height
    }

    /// Sets the development Session identifier.
    pub fn with_session_id(self, value: String) -> (r: DevelopmentCanvasConfig)
        ensures
            r == (DevelopmentCanvasConfig { session_id: Some(value), ..self }),
    {
        let mut config = self;
        config.session_id = Some(value);
        config
    }

    /// Sets the development Canvas identifier.
    pub fn with_canvas_id(self, value: String) -> (r: DevelopmentCanvasConfig)
        ensures
            r == (DevelopmentCanvasConfig { canvas_id: Some(value), ..self }),
    {
        let mut config = self;
        config.canvas_id = Some(value);
        config
    }

    /// Sets the development default Layer identifier.
    pub fn with_layer_id(self, value: String) -> (r: DevelopmentCanvasConfig)
        ensures
            r == (DevelopmentCanvasConfig { layer_id: Some(value), ..self }),
    {
        let mut config = self;
        config.layer_id = Some(value);
        config
    }

    /// Sets the development Canvas dimensions.
    pub fn with_size(self, width: Dimension, height: Dimension) -> (r: DevelopmentCanvasConfig)
        ensures
            r == (DevelopmentCanvasConfig { width, height, ..self }),
    {
        let mut config = self;
        config.width = width;
        config.height = height;
        config
    }
}

/// Process-level WebSocket listener settings.
#[derive(Clone, Debug, PartialEq, Eq)]
pub struct WebSocketListenerConfig {
    /// The address the listener will bind.
    pub bind_addr: SocketAddress,
    /// The exact accepted WebSocket request path.
    pub websocket_path: String,
    /// The maximum number of active connections.
    pub max_connections: usize,
    /// The handshake timeout in milliseconds.
    pub handshake_timeout_milliseconds: u64,
    /// The graceful shutdown wait in milliseconds.
    pub shutdown_grace_period_milliseconds: u64,
}

impl Default for WebSocketListenerConfig {
    fn default() -> (r: WebSocketListenerConfig)
        ensures
            r.is_default(),
    {
        WebSocketListenerConfig {
            bind_addr: SocketAddress::v4(0x7f00_0001, 8080),
            websocket_path: "/ws".to_owned(),
            max_connections: 1024,
            handshake_timeout_milliseconds: 10_000,
            shutdown_grace_period_milliseconds: 5_000,
        }
    }
}

impl WebSocketListenerConfig {
    /// Loopback port 8080 at `/ws`.
    pub open spec fn is_default(self) -> bool {
        &&& self.bind_addr == (SocketAddress {
            ip: IpAddress::V4(0x7f00_0001),
            port: 8080,
            flow_info: 0,
            scope_id: 0,
        })
        &&& self.websocket_path@ == "/ws"@
        &&& self.max_connections == 1024
        &&& self.handshake_timeout_milliseconds == 10_000
        &&& self.shutdown_grace_period_milliseconds == 5_000
    }

    /// Whether the settings can be used, and otherwise the first thing wrong with them.
    pub open spec fn verdict(self) -> Result<(), ServerErrorView> {
        if self.websocket_path@.len() == 0 || self.websocket_path@[0] != '/' {
            config_error("websocket path must start with `/`"@)
        } else if self.max_connections == 0 {
            config_error("max connections must be greater than zero"@)
        } else if self.handshake_timeout_milliseconds == 0 {
            config_error("handshake timeout must be greater than zero"@)
        } else if self.shutdown_grace_period_milliseconds == 0 {
            config_error("shutdown grace period must be greater than zero"@)
        } else {
            Ok(())
        }
    }

    /// Validates listener limits and the configured HTTP handshake path.
    pub fn validate(&self) -> (r: Result<(), ServerError>)
        ensures
            result_view(r) == self.verdict(),
    {
        let path = chars_of(self.websocket_path.as_str());
        if path.len() == 0 || path[0] != '/' {
            return Err(ServerError::config("websocket path must start with `/`"));
        }
        if self.max_connections == 0 {
            return Err(ServerError::config("max connections must be greater than zero"));
        }
        if self.handshake_timeout_milliseconds == 0 {
            return Err(ServerError::config("handshake timeout must be greater than zero"));
        }
        if self.shutdown_grace_period_milliseconds == 0 {
            return Err(ServerError::config("shutdown grace period must be greater than zero"));
        }
        Ok(())
    }

    /// Returns the address the listener will bind.
    pub fn bind_addr(&self) -> (r: SocketAddress)
        ensures
            r == self.bind_addr,
    {
        self.bind_addr
    }

    /// Returns the exact accepted WebSocket request path.
    pub fn websocket_path(&self) -> (r: &str)
        ensures
            r@ == self.websocket_path@,
    {
        self.websocket_path.as_str()
    }

    /// Returns the maximum number of active connections.
    pub fn max_connections(&self) -> (r: usize)
        ensures
            r == self.max_connections,
    {
        self.max_connections
    }

    /// Returns the handshake timeout in milliseconds.
    pub fn handshake_timeout_milliseconds(&self) -> (r: u64)
        ensures
            r == self.handshake_timeout_milliseconds,
    {
        self.handshake_timeout_milliseconds
    }

    /// Returns the graceful shutdown wait in milliseconds.
    pub fn shutdown_grace_period_milliseconds(&self) -> (r: u64)
        ensures
            r == self.shutdown_grace_period_milliseconds,
    {
        self.shutdown_grace_period_milliseconds
    }

    /// Sets the listener bind address.
    pub fn with_bind_addr(self, bind_addr: SocketAddress) -> (r: WebSocketListenerConfig)
        ensures
            r == (WebSocketListenerConfig { bind_addr: bind_addr, ..self }),
    {
        let mut config = self;
        config.bind_addr = bind_addr;
        config
    }

    /// Sets the accepted WebSocket path.
    pub fn with_websocket_path(self, path: String) -> (r: WebSocketListenerConfig)
        ensures
            r == (WebSocketListenerConfig { websocket_path: path, ..self }),
    {
        let mut config = self;
        config.websocket_path = path;
        config
    }

    /// Sets the connection limit.
    pub fn with_max_connections(self, max_connections: usize) -> (r: WebSocketListenerConfig)
        ensures
            r == (WebSocketListenerConfig { max_connections: max_connections, ..self }),
    {
        let mut config = self;
        config.max_connections = max_connections;
        config
    }

    /// Sets the handshake timeout.
    pub fn with_handshake_timeout_milliseconds(self, value: u64) -> (r: WebSocketListenerConfig)
        ensures
            r == (WebSocketListenerConfig { handshake_timeout_milliseconds: value, ..self }),
    {
        let mut config = self;
        config.handshake_timeout_milliseconds = value;
        config
    }

    /// Sets the graceful shutdown wait.
    pub fn with_shutdown_grace_period_milliseconds(self, value: u64) -> (r: WebSocketListenerConfig)
        ensures
            r == (WebSocketListenerConfig { shutdown_grace_period_milliseconds: value, ..self }),
    {
        let mut config = self;
        config.shutdown_grace_period_milliseconds = value;
        config
    }
}

/// WebSocket adapter limits, as far as the server reads them.
#[derive(Clone, Copy, Debug, PartialEq, Eq, Structural)]
pub struct WebSocketAdapterConfig {
    /// The largest transport message in bytes.
    pub max_message_bytes: usize,
    /// Whether the transport accepts its limits.
    pub accepted: bool,
}

/// Limits on the inspection of a PDF, as far as the server reads them.
#[derive(Clone, Copy, Debug, PartialEq, Eq, Structural)]
pub struct PdfInspectionLimits {
    /// The largest PDF in bytes.
    pub max_asset_bytes: u64,
}

/// Minimal configuration needed to compose a local OrbitRelay server.
#[derive(Clone, Debug, PartialEq, Eq)]
pub struct ServerConfig {
    /// The configured stable node identifier, if one was supplied.
    pub node_id: Option<String>,
    /// The metadata document advertised by the local node, if one was supplied.
    pub node_metadata: Option<String>,
    /// Whether explicitly unsafe development authorization is enabled.
    pub development_mode: bool,
    /// The in-memory subscription queue capacity.
    pub subscription_queue_capacity: usize,
    /// Process-level WebSocket listener settings.
    pub websocket_listener: WebSocketListenerConfig,
    /// WebSocket adapter limits.
    pub websocket_adapter: WebSocketAdapterConfig,
    /// Development Canvas configuration.
    pub development_canvas: DevelopmentCanvasConfig,
    /// The optional server-local Development PDF path.
    pub development_pdf_path: Option<String>,
    /// The PDF inspection policy used by Development bootstrap.
    pub development_pdf_inspection_limits: PdfInspectionLimits,
    /// The independent Asset Delivery configuration.
    pub asset_delivery: AssetDeliveryConfig,
    /// The bounded number of candidate Store events scanned per history Query.
    pub history_store_scan_limit: usize,
    /// The optional SQLite EventStore database path.
    pub event_store_path: Option<String>,
    /// The optional persistent local Asset store root.
    pub asset_store_root: Option<String>,
    /// The optional SQLite Catalog database path.
    pub catalog_store_path: Option<String>,
    /// The bounded SQLite worker command queue capacity.
    pub sqlite_command_queue_capacity: usize,
}

/// Whether a configured path is empty.
pub open spec fn is_empty_path(path: Option<String>) -> bool {
    path is Some && path->0@.len() == 0
}

fn empty_path(path: &Option<String>) -> (r: bool)
    ensures
        r == is_empty_path(*path),
{
    match path {
        Some(path) => path.as_str().is_empty(),
        None => false,
    }
}

/// The message for a history scan limit out of bounds.
pub open spec fn scan_limit_message() -> Seq<char> {
    "history Store scan limit must be between 1 and "@ + decimal(
        MAX_HISTORY_STORE_SCAN_LIMIT as int,
    )
}

impl ServerConfig {
    /// The configuration that stands where nothing is configured: production mode with memory
    /// stores.
    pub open spec fn is_default_with(
        self,
        websocket_adapter: WebSocketAdapterConfig,
        limits: PdfInspectionLimits,
    ) -> bool {
        &&& self.node_id is None
        &&& self.node_metadata is None
        &&& !self.development_mode
        &&& self.subscription_queue_capacity == DEFAULT_SUBSCRIPTION_QUEUE_CAPACITY
        &&& self.websocket_listener.is_default()
        &&& self.websocket_adapter == websocket_adapter
        &&& self.development_canvas.is_default()
        &&& self.development_pdf_path is None
        &&& self.development_pdf_inspection_limits == limits
        &&& self.asset_delivery.is_default()
        &&& self.history_store_scan_limit == DEFAULT_HISTORY_STORE_SCAN_LIMIT
        &&& self.event_store_path is None
        &&& self.asset_store_root is None
        &&& self.catalog_store_path is None
        &&& self.sqlite_command_queue_capacity == DEFAULT_COMMAND_QUEUE_CAPACITY
    }

    /// Creates the default configuration over the given transport and inspection limits.
    pub fn default_with(
        websocket_adapter: WebSocketAdapterConfig,
        limits: PdfInspectionLimits,
    ) -> (r: ServerConfig)
        ensures
            r.is_default_with(websocket_adapter, limits),
    {
        ServerConfig {
            node_id: None,
            node_metadata: None,
            development_mode: false,
            subscription_queue_capacity: DEFAULT_SUBSCRIPTION_QUEUE_CAPACITY,
            websocket_listener: WebSocketListenerConfig::default(),
            websocket_adapter,
            development_canvas: DevelopmentCanvasConfig::default(),
            development_pdf_path: None,
            development_pdf_inspection_limits: limits,
            asset_delivery: AssetDeliveryConfig::default(),
            history_store_scan_limit: DEFAULT_HISTORY_STORE_SCAN_LIMIT,
            event_store_path: None,
            asset_store_root: None,
            catalog_store_path: None,
            sqlite_command_queue_capacity: DEFAULT_COMMAND_QUEUE_CAPACITY,
        }
    }

    /// Whether the configuration can be used, and otherwise the first thing wrong with it.
    pub open spec fn verdict(self) -> Result<(), ServerErrorView> {
        if self.subscription_queue_capacity == 0 {
            config_error("subscription queue capacity must be greater than zero"@)
        } else if !(1 <= self.history_store_scan_limit <= MAX_HISTORY_STORE_SCAN_LIMIT) {
            config_error(scan_limit_message())
        } else if self.websocket_listener.verdict() is Err {
            self.websocket_listener.verdict()
        } else if !self.websocket_adapter.accepted {
            config_error("invalid WebSocket adapter configuration"@)
        } else if self.development_canvas.verdict() is Err {
            self.development_canvas.verdict()
        } else if self.asset_delivery.verdict() is Err {
            self.asset_delivery.verdict()
        } else if is_empty_path(self.event_store_path) {
            config_error("event store path must not be empty"@)
        } else if is_empty_path(self.asset_store_root) {
            config_error("asset store root must not be empty"@)
        } else if is_empty_path(self.catalog_store_path) {
            config_error("catalog store path must not be empty"@)
        } else if self.sqlite_command_queue_capacity == 0 {
            config_error("SQLite command queue capacity must be greater than zero"@)
        } else {
            Ok(())
        }
    }

    /// Validates configuration invariants independent of a concrete backend.
    pub fn validate(&self) -> (r: Result<(), ServerError>)
        ensures
            result_view(r) == self.verdict(),
    {
        if self.subscription_queue_capacity == 0 {
            return Err(
                ServerError::config("subscription queue capacity must be greater than zero"),
            );
        }
        if self.history_store_scan_limit == 0 || self.history_store_scan_limit
            > MAX_HISTORY_STORE_SCAN_LIMIT {
            let message = "history Store scan limit must be between 1 and ".to_owned().concat(
                decimal_text(MAX_HISTORY_STORE_SCAN_LIMIT as u64).as_str(),
            );
            return Err(ServerError::config(message.as_str()));
        }
        match self.websocket_listener.validate() {
            Ok(()) => {},
            Err(error) => {
                return Err(error);
            },
        }
        if !self.websocket_adapter.accepted {
            return Err(ServerError::config("invalid WebSocket adapter configuration"));
        }
        match self.development_canvas.validate() {
            Ok(()) => {},
            Err(error) => {
                return Err(error);
            },
        }
        match self.asset_delivery.validate() {
            Ok(()) => {},
            Err(error) => {
                return Err(error);
            },
        }
        if empty_path(&self.event_store_path) {
            return Err(ServerError::config("event store path must not be empty"));
        }
        if empty_path(&self.asset_store_root) {
            return Err(ServerError::config("asset store root must not be empty"));
        }
        if empty_path(&self.catalog_store_path) {
            return Err(ServerError::config("catalog store path must not be empty"));
        }
        if self.sqlite_command_queue_capacity == 0 {
            return Err(
                ServerError::config("SQLite command queue capacity must be greater than zero"),
            );
        }
        Ok(())
    }

    /// Sets the stable identifier advertised by this process.
    pub fn with_node_id(self, node_id: String) -> (r: ServerConfig)
        ensures
            r == (ServerConfig { node_id: Some(node_id), ..self }),
    {
        let mut config = self;
        config.node_id = Some(node_id);
        config
    }

    /// Sets the business-neutral metadata advertised by this process.
    pub fn with_node_metadata(self, node_metadata: String) -> (r: ServerConfig)
        ensures
            r == (ServerConfig { node_metadata: Some(node_metadata), ..self }),
    {
        let mut config = self;
        config.node_metadata = Some(node_metadata);
        config
    }

    /// Sets the bounded capacity of each in-memory subscription queue.
    pub fn with_subscription_queue_capacity(self, capacity: usize) -> (r: ServerConfig)
        ensures
            r == (ServerConfig { subscription_queue_capacity: capacity, ..self }),
    {
        let mut config = self;
        config.subscription_queue_capacity = capacity;
        config
    }

    /// Returns the configured stable node identifier, if one was supplied.
    pub fn node_id(&self) -> (r: Option<&str>)
        ensures
            match r {
                Some(text) => optional_text(self.node_id) == Some(text@),
                None => self.node_id is None,
            },
    {
        match &self.node_id {
            Some(text) => Some(text.as_str()),
            None => None,
        }
    }

    /// Returns the metadata advertised by the local node, if any was supplied.
    pub fn node_metadata(&self) -> (r: Option<&str>)
        ensures
            match r {
                Some(text) => optional_text(self.node_metadata) == Some(text@),
                None => self.node_metadata is None,
            },
    {
        match &self.node_metadata {
            Some(text) => Some(text.as_str()),
            None => None,
        }
    }

    /// Returns the in-memory subscription queue capacity.
    pub fn subscription_queue_capacity(&self) -> (r: usize)
        ensures
            r == self.subscription_queue_capacity,
    {
        self.subscription_queue_capacity
    }

    /// Returns the bounded number of candidate Store events scanned per history Query.
    pub fn history_store_scan_limit(&self) -> (r: usize)
        ensures
            r == self.history_store_scan_limit,
    {
        self.history_store_scan_limit
    }

    /// Returns the optional SQLite EventStore database path.
    pub fn event_store_path(&self) -> (r: Option<&str>)
        ensures
            match r {
                Some(text) => optional_text(self.event_store_path) == Some(text@),
                None => self.event_store_path is None,
            },
    {
        match &self.event_store_path {
            Some(text) => Some(text.as_str()),
            None => None,
        }
    }

    /// Sets the SQLite EventStore database path. No path selects the memory EventStore.
    pub fn with_event_store_path(self, path: String) -> (r: ServerConfig)
        ensures
            r == (ServerConfig { event_store_path: Some(path), ..self }),
    {
        let mut config = self;
        config.event_store_path = Some(path);
        config
    }

    /// Clears the SQLite EventStore path and selects the memory EventStore.
    pub fn without_event_store_path(self) -> (r: ServerConfig)
        ensures
            r == (ServerConfig { event_store_path: None, ..self }),
    {
        let mut config = self;
        config.event_store_path = None;
        config
    }

    /// Returns the optional persistent local Asset store root.
    pub fn asset_store_root(&self) -> (r: Option<&str>)
        ensures
            match r {
                Some(text) => optional_text(self.asset_store_root) == Some(text@),
                None => self.asset_store_root is None,
            },
    {
        match &self.asset_store_root {
            Some(text) => Some(text.as_str()),
            None => None,
        }
    }

    /// Sets the persistent local Asset store root. No root selects the memory Asset store.
    pub fn with_asset_store_root(self, path: String) -> (r: ServerConfig)
        ensures
            r == (ServerConfig { asset_store_root: Some(path), ..self }),
    {
        let mut config = self;
        config.asset_store_root = Some(path);
        config
    }

    /// Clears the persistent Asset store root and selects the memory Asset store.
    pub fn without_asset_store_root(self) -> (r: ServerConfig)
        ensures
            r == (ServerConfig { asset_store_root: None, ..self }),
    {
        let mut config = self;
        config.asset_store_root = None;
        config
    }

    /// Returns the optional SQLite Catalog database path.
    pub fn catalog_store_path(&self) -> (r: Option<&str>)
        ensures
            match r {
                Some(text) => optional_text(self.catalog_store_path) == Some(text@),
                None => self.catalog_store_path is None,
            },
    {
        match &self.catalog_store_path {
            Some(text) => Some(text.as_str()),
            None => None,
        }
    }

    /// Sets the SQLite Catalog database path. No path selects memory catalogs.
    pub fn with_catalog_store_path(self, path: String) -> (r: ServerConfig)
        ensures
            r == (ServerConfig { catalog_store_path: Some(path), ..self }),
    {
        let mut config = self;
        config.catalog_store_path = Some(path);
        config
    }

    /// Clears the Catalog path and selects memory catalogs.
    pub fn without_catalog_store_path(self) -> (r: ServerConfig)
        ensures
            r == (ServerConfig { catalog_store_path: None, ..self }),
    {
        let mut config = self;
        config.catalog_store_path = None;
        config
    }

    /// Returns the bounded SQLite worker command queue capacity.
    pub fn sqlite_command_queue_capacity(&self) -> (r: usize)
        ensures
            r == self.sqlite_command_queue_capacity,
    {
        self.sqlite_command_queue_capacity
    }

    /// Sets the bounded SQLite worker command queue capacity.
    pub fn with_sqlite_command_queue_capacity(self, capacity: usize) -> (r: ServerConfig)
        ensures
            r == (ServerConfig { sqlite_command_queue_capacity: capacity, ..self }),
    {
        let mut config = self;
        config.sqlite_command_queue_capacity = capacity;
        config
    }

    /// Sets the bounded number of candidate Store events scanned per history Query.
    pub fn with_history_store_scan_limit(self, limit: usize) -> (r: ServerConfig)
        ensures
            r == (ServerConfig { history_store_scan_limit: limit, ..self }),
    {
        let mut config = self;
        config.history_store_scan_limit = limit;
        config
    }

    /// Returns whether explicitly unsafe development authorization is enabled.
    pub fn development_mode(&self) -> (r: bool)
        ensures
            r == self.development_mode,
    {
        self.development_mode
    }

    /// Enables or disables development-only identity, authorization, and handler behavior.
    pub fn with_development_mode(self, enabled: bool) -> (r: ServerConfig)
        ensures
            r == (ServerConfig { development_mode: enabled, ..self }),
    {
        let mut config = self;
        config.development_mode = enabled;
        config
    }

    /// Returns development Canvas configuration.
    pub fn development_canvas(&self) -> (r: &DevelopmentCanvasConfig)
        ensures
            *r == self.development_canvas,
    {
        &self.development_canvas
    }

    /// Replaces development Canvas configuration.
    pub fn with_development_canvas(self, config: DevelopmentCanvasConfig) -> (r: ServerConfig)
        ensures
            r == (ServerConfig { development_canvas: config, ..self }),
    {
        let mut changed = self;
        changed.development_canvas = config;
        changed
    }

    /// Sets the server-local PDF path used only by Development bootstrap.
    pub fn with_development_pdf_path(self, path: String) -> (r: ServerConfig)
        ensures
            r == (ServerConfig { development_pdf_path: Some(path), ..self }),
    {
        let mut config = self;
        config.development_pdf_path = Some(path);
        config
    }

    /// Returns the optional server-local Development PDF path.
    pub fn development_pdf_path(&self) -> (r: Option<&str>)
        ensures
            match r {
                Some(text) => optional_text(self.development_pdf_path) == Some(text@),
                None => self.development_pdf_path is None,
            },
    {
        match &self.development_pdf_path {
            Some(text) => Some(text.as_str()),
            None => None,
        }
    }

    /// Replaces the optional Development PDF path.
    pub fn with_optional_development_pdf_path(self, path: Option<String>) -> (r: ServerConfig)
        ensures
            r == (ServerConfig { development_pdf_path: path, ..self }),
    {
        let mut config = self;
        config.development_pdf_path = path;
        config
    }

    /// Returns the PDF inspection policy used by Development bootstrap.
    pub fn development_pdf_inspection_limits(&self) -> (r: PdfInspectionLimits)
        ensures
            r == self.development_pdf_inspection_limits,
    {
        self.development_pdf_inspection_limits
    }

    /// Returns the independent Asset Delivery configuration.
    pub fn asset_delivery(&self) -> (r: &AssetDeliveryConfig)
        ensures
            *r == self.asset_delivery,
    {
        &self.asset_delivery
    }

    /// Replaces the independent Asset Delivery configuration.
    pub fn with_asset_delivery(self, config: AssetDeliveryConfig) -> (r: ServerConfig)
        ensures
            r == (ServerConfig { asset_delivery: config, ..self }),
    {
        let mut changed = self;
        changed.asset_delivery = config;
        changed
    }

    /// Sets the PDF inspection policy used by Development bootstrap.
    pub fn with_development_pdf_inspection_limits(self, limits: PdfInspectionLimits) -> (r: ServerConfig)
        ensures
            r == (ServerConfig { development_pdf_inspection_limits: limits, ..self }),
    {
        let mut config = self;
        config.development_pdf_inspection_limits = limits;
        config
    }

    /// Returns process-level WebSocket listener settings.
    pub fn websocket_listener(&self) -> (r: &WebSocketListenerConfig)
        ensures
            *r == self.websocket_listener,
    {
        &self.websocket_listener
    }

    /// Returns WebSocket adapter limits.
    pub fn websocket_adapter(&self) -> (r: &WebSocketAdapterConfig)
        ensures
            *r == self.websocket_adapter,
    {
        &self.websocket_adapter
    }

    /// Replaces process-level WebSocket listener settings.
    pub fn with_websocket_listener(self, config: WebSocketListenerConfig) -> (r: ServerConfig)
        ensures
            r == (ServerConfig { websocket_listener: config, ..self }),
    {
        let mut changed = self;
        changed.websocket_listener = config;
        changed
    }

    /// Replaces WebSocket adapter limits.
    pub fn with_websocket_adapter(self, config: WebSocketAdapterConfig) -> (r: ServerConfig)
        ensures
            r == (ServerConfig { websocket_adapter: config, ..self }),
    {
        let mut changed = self;
        changed.websocket_adapter = config;
        changed
    }
}

/// The default configuration can be used wherever the transport accepts its own limits, in
/// production and in development mode.
pub proof fn law_default_configuration_is_valid(
    config: ServerConfig,
    adapter: WebSocketAdapterConfig,
    limits: PdfInspectionLimits,
)
    requires
        config.is_default_with(adapter, limits),
        adapter.accepted,
    ensures
        config.verdict() == Ok::<(), ServerErrorView>(()),
        (ServerConfig { development_mode: true, ..config }).verdict() == Ok::<
            (),
            ServerErrorView,
        >(()),
{
    reveal_strlit("/ws");
    crate::delivery_config::law_default_delivery_is_valid(config.asset_delivery, true);
}

/// A configuration can be used exactly where every limit is at least one and the scan limit is no
/// more than 256, the WebSocket path begins with a slash, the sides of the development Canvas are
/// finite and positive, no configured path is empty, the transport accepts its limits and Asset
/// Delivery can be used. Whatever is wrong is told as a configuration error.
pub proof fn law_usable_configurations(config: ServerConfig)
    ensures
        config.verdict() is Ok <==> {
            &&& config.subscription_queue_capacity >= 1
            &&& 1 <= config.history_store_scan_limit <= 256
            &&& config.websocket_listener.websocket_path@.len() > 0
            &&& config.websocket_listener.websocket_path@[0] == '/'
            &&& config.websocket_listener.max_connections >= 1
            &&& config.websocket_listener.handshake_timeout_milliseconds >= 1
            &&& config.websocket_listener.shutdown_grace_period_milliseconds >= 1
            &&& config.websocket_adapter.accepted
            &&& 0 < config.development_canvas.width.bits < 0x7ff0_0000_0000_0000
            &&& 0 < config.development_canvas.height.bits < 0x7ff0_0000_0000_0000
            &&& config.asset_delivery.verdict() is Ok
            &&& config.event_store_path matches Some(path) ==> path@.len() > 0
            &&& config.asset_store_root matches Some(path) ==> path@.len() > 0
            &&& config.catalog_store_path matches Some(path) ==> path@.len() > 0
            &&& config.sqlite_command_queue_capacity >= 1
        },
        config.verdict() is Err ==> config.verdict()->Err_0 is Config,
{
    crate::delivery_config::law_usable_delivery(config.asset_delivery);
}

/// What stands where nothing is configured: production mode with memory stores, a WebSocket
/// listener on port 8080 of the loopback address, and Asset Delivery switched off.
pub proof fn law_default_settings(
    config: ServerConfig,
    adapter: WebSocketAdapterConfig,
    limits: PdfInspectionLimits,
)
    requires
        config.is_default_with(adapter, limits),
    ensures
        !config.development_mode,
        config.node_id is None,
        config.node_metadata is None,
        config.event_store_path is None,
        config.asset_store_root is None,
        config.catalog_store_path is None,
        config.development_pdf_path is None,
        config.subscription_queue_capacity == 64,
        config.history_store_scan_limit == 64,
        config.sqlite_command_queue_capacity == 256,
        config.websocket_adapter == adapter,
        config.development_pdf_inspection_limits == limits,
        config.websocket_listener.bind_addr.ip == IpAddress::V4(0x7f00_0001),
        config.websocket_listener.bind_addr.port == 8080,
        config.websocket_listener.websocket_path@ == "/ws"@,
        config.websocket_listener.max_connections == 1024,
        config.websocket_listener.handshake_timeout_milliseconds == 10000,
        config.websocket_listener.shutdown_grace_period_milliseconds == 5000,
        config.development_canvas.session_id is None,
        config.development_canvas.canvas_id is None,
        config.development_canvas.layer_id is None,
        config.development_canvas.width.bits == 0x409e_0000_0000_0000,
        config.development_canvas.height.bits == 0x4090_e000_0000_0000,
        !config.asset_delivery.enabled,
        config.asset_delivery.listen_addr.ip == IpAddress::V4(0x7f00_0001),
        config.asset_delivery.listen_addr.port == 8081,
        config.asset_delivery.public_base_url is None,
        config.asset_delivery.max_connections == 64,
        config.asset_delivery.max_active_downloads == 8,
        config.asset_delivery.chunk_size == 65536,
        config.asset_delivery.idle_timeout_milliseconds == 30000,
        config.asset_delivery.grant_ttl_seconds == 600,
        config.asset_delivery.max_grants == 4096,
        config.asset_delivery.allowed_origins@.len() == 0,
{
}

} // verus!
