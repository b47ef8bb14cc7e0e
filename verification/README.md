# OrbitRelay

OrbitRelay is a single-node relay server for shared documents and canvases: it appends events to a
log, publishes them to WebSocket subscribers, keeps documents, canvases and assets in local stores,
and serves asset bytes over HTTP. This crate is the part of it that decides, written in Verus, with
every function held to its contract by proof.

## Layout

- `src/` is the verified library. It makes no I/O. What alternates between outside work and
  decisions is a function from the facts known so far to the next step.
- `app/` is the server process: it opens the databases and sockets, takes the steps that the library
  names, and hands back what came of them. It is ordinary Rust and builds with the crates of the
  OrbitRelay kernel.
- `tests/` runs the library on concrete values.

## What is stated where

| Subject | Modules |
| --- | --- |
| Event log: append, conflict, paging, checkpoints, opening | `event_store`, `event_query`, `event_log`, `event_store_open` |
| Assets: ingest, publication, range reads, recovery | `asset_store`, `asset_ingest`, `asset_read`, `asset_content`, `asset_recovery`, `asset_store_open`, `digest` |
| Documents and canvases: rows, publication, integrity scan | `catalog`, `catalog_publish`, `catalog_scan`, `catalog_open` |
| Asset delivery over HTTP | `http`, `range`, `access`, `grants`, `delivery_config`, `address` |
| Canvas replay, execution scopes and history | `canvas`, `canvas_history`, `history_replay` |
| Configuration | `config`, `environment` |
| Composition, startup, shutdown | `bootstrap`, `bootstrap_pdf`, `context`, `application`, `lifecycle`, `health`, `listener`, `worker`, `pipeline` |
| Refusals and failures as clients are told | `error`, `query`, `adapters`, `dependencies`, `development` |
| Texts | `text`, `text_set` |

Properties that hold over several calls are public proof functions named `law_...`: that a refused
request discloses nothing, that paging visits every matching event once, that only verified content
is published, that ingested bytes are read back, that a failed startup is taken back, and others.

## What is trusted

The digest functions of the `sha2` crate and two functions of the standard library are believed as
their documentation gives them. They stand in `digest` and `text`, each with a comment that says what
is claimed.
