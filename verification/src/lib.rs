//! Verified decision logic of the OrbitRelay server.
//!
//! The library decides and the process round it acts. Sockets, files, databases, clocks and the
//! kernel's ports live outside: they hand in plain values and carry out the steps that the library
//! names. Work that alternates between both, such as opening a store or answering an HTTP request,
//! is a function from the facts known so far to the next step; it is asked again with one more fact
//! until it names the outcome.
//!
//! Contracts speak of the views of the values. What holds over several calls is stated by the
//! public proof functions whose names begin with `law_`.

pub mod access;
pub mod adapters;
pub mod address;
pub mod application;
pub mod asset_content;
pub mod asset_ingest;
pub mod asset_read;
pub mod asset_recovery;
pub mod asset_store;
pub mod asset_store_open;
pub mod bootstrap;
pub mod bootstrap_pdf;
pub mod canvas;
pub mod canvas_history;
pub mod catalog;
pub mod catalog_open;
pub mod catalog_publish;
pub mod catalog_scan;
pub mod config;
pub mod context;
pub mod delivery_config;
pub mod dependencies;
pub mod development;
pub mod digest;
pub mod environment;
pub mod error;
pub mod event_log;
pub mod event_query;
pub mod event_store;
pub mod event_store_open;
pub mod facts;
pub mod grants;
pub mod health;
pub mod history_replay;
pub mod http;
pub mod lifecycle;
pub mod listener;
pub mod pipeline;
pub mod query;
pub mod range;
pub mod text;
pub mod text_set;
pub mod worker;
