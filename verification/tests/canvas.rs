//! Canvas catalogs, replay, execution scopes and history.

use orbitrelay::canvas::{
    development_canvas_descriptor, load_stroke, map_storage_error, CanvasSpaceError,
    DevelopmentCanvasCatalog, FreshIds, StrokeReading, TokioExecutionCoordinator,
};
use orbitrelay::canvas_history::{
    history_page, map_authorization_error, map_capture_error, map_query_error,
    CanvasHistoryPageDto, CanvasHistoryQueryHandler, CanvasHistoryReadAuthorizationError,
    CanvasHistoryRequest, CanvasLookup, CanvasReading, Continuation,
    DevelopmentCanvasHistoryReadAuthorizer, HistoryDecision, HistoryFacts, HistoryRecord,
    HistoryStorePage, RejectAllCanvasHistoryReadAuthorizer, CANVAS_HISTORY_PAGE_QUERY_TYPE,
    DEFAULT_HISTORY_STORE_SCAN_LIMIT, MAX_HISTORY_STORE_SCAN_LIMIT,
};
use orbitrelay::catalog::CanvasDescriptor;
use orbitrelay::config::Dimension;
use orbitrelay::event_store::{Event, StorageError};
use orbitrelay::query::QueryHandlerError;
use orbitrelay::text_set::TextSet;

fn descriptor(id: &str) -> CanvasDescriptor {
    CanvasDescriptor::new(
        id.to_owned(),
        "session".to_owned(),
        Dimension { bits: 1920f64.to_bits() },
        Dimension { bits: 1080f64.to_bits() },
        TextSet::new().insert("layer".to_owned()),
        "layer".to_owned(),
        true,
    )
    .expect("canvas")
}

fn event(id: &str) -> Event {
    Event {
        event_id: id.to_owned(),
        session_id: "session".to_owned(),
        actor_id: "actor".to_owned(),
        action_id: "action".to_owned(),
        event_type: "canvas.stroke.began".to_owned(),
        occurred_at: "1".to_owned(),
        payload: "{}".to_owned(),
        metadata: "{}".to_owned(),
    }
}

fn record(id: &str, canvas: &str) -> HistoryRecord {
    HistoryRecord { event: event(id), canvas: CanvasReading::Canvas(canvas.to_owned()) }
}

fn first_request() -> Option<CanvasHistoryRequest> {
    Some(CanvasHistoryRequest { canvas_id: "canvas".to_owned(), continuation: None })
}

/// Runs a history query against recorded events, one store page at a time.
struct HistoryRun<'a> {
    records: &'a [(&'a str, &'a str)],
    session: &'a str,
    capture_failure: bool,
    captures: usize,
}

impl HistoryRun<'_> {
    fn run(
        &mut self,
        handler: &CanvasHistoryQueryHandler,
        request: &Option<CanvasHistoryRequest>,
    ) -> Result<CanvasHistoryPageDto, QueryHandlerError> {
        let authorizer = DevelopmentCanvasHistoryReadAuthorizer::new(self.session.to_owned());
        let mut facts = HistoryFacts::new();
        let mut page = None;
        loop {
            match handler.execute(request, &facts) {
                HistoryDecision::GetCanvas(id) => {
                    facts.canvas = Some(if id == "canvas" {
                        CanvasLookup::Found("session".to_owned())
                    } else {
                        CanvasLookup::Missing
                    });
                }
                HistoryDecision::Authorize(session) => {
                    facts.authorization = Some(authorizer.authorize_session_read(&session));
                }
                HistoryDecision::CaptureCheckpoint => {
                    self.captures += 1;
                    facts.captured = Some(if self.capture_failure {
                        Err(StorageError::BackendUnavailable { message: "test".to_owned() })
                    } else {
                        Ok(format!("{}", self.records.len()))
                    });
                }
                HistoryDecision::QueryEvents { session_id, checkpoint, cursor, limit } => {
                    assert_eq!(session_id, "session");
                    let upper: usize = checkpoint.parse().expect("checkpoint");
                    let start: usize = cursor.map_or(0, |cursor| cursor.parse().expect("cursor"));
                    let end = usize::min(start + limit, upper);
                    facts.page = Some(Ok(HistoryStorePage {
                        records: self.records[start..end]
                            .iter()
                            .map(|(id, canvas)| record(id, canvas))
                            .collect(),
                        next_cursor: if end < upper { Some(format!("{end}")) } else { None },
                    }));
                }
                HistoryDecision::Encode(dto) => {
                    facts.encoded_bytes = Some(Some(100));
                    page = Some(dto);
                }
                HistoryDecision::Answer => return Ok(page.expect("page")),
                HistoryDecision::Fail(error) => return Err(error),
            }
        }
    }
}

fn handler(limit: usize, max_message_bytes: usize) -> CanvasHistoryQueryHandler {
    CanvasHistoryQueryHandler::new(limit, max_message_bytes).expect("handler")
}

fn run<'a>(records: &'a [(&'a str, &'a str)]) -> HistoryRun<'a> {
    HistoryRun { records, session: "session", capture_failure: false, captures: 0 }
}

#[test]
fn catalogs_refuse_a_repeated_canvas() {
    let catalog =
        DevelopmentCanvasCatalog::from_descriptors(vec![descriptor("a"), descriptor("b")])
            .expect("catalog");
    assert_eq!(catalog.len(), 2);
    assert!(!catalog.is_empty());
    assert_eq!(catalog.get_canvas("b").map(|found| found.canvas_id()), Some("b"));
    assert!(catalog.get_canvas("c").is_none());
    let repeated =
        DevelopmentCanvasCatalog::from_descriptors(vec![descriptor("a"), descriptor("a")]);
    assert_eq!(
        repeated.expect_err("repeated").message,
        "duplicate Canvas identity"
    );
    assert!(DevelopmentCanvasCatalog::empty().try_descriptor().is_none());
    assert!(DevelopmentCanvasCatalog::empty().is_empty());
    let one = DevelopmentCanvasCatalog::new(descriptor("a"));
    assert_eq!(one.descriptor().canvas_id(), "a");
}

#[test]
fn development_canvas_takes_fresh_identities_for_missing_ones() {
    let length = |value: f64| Dimension { bits: value.to_bits() };
    let fresh = || FreshIds {
        session_id: "fresh-session".to_owned(),
        canvas_id: "fresh-canvas".to_owned(),
        layer_id: "fresh-layer".to_owned(),
    };
    let canvas = development_canvas_descriptor(
        Some("session".to_owned()),
        None,
        None,
        length(1920.0),
        length(1080.0),
        fresh(),
        true,
    )
    .expect("canvas");
    assert_eq!(canvas.session_id(), "session");
    assert_eq!(canvas.canvas_id(), "fresh-canvas");
    assert_eq!(canvas.default_layer_id(), "fresh-layer");
    assert_eq!(canvas.layer_ids().items().to_vec(), ["fresh-layer"]);
    assert_eq!((canvas.width(), canvas.height()), (length(1920.0), length(1080.0)));
    let canvas = development_canvas_descriptor(
        None,
        Some("canvas".to_owned()),
        Some("layer".to_owned()),
        length(1.0),
        length(2.0),
        fresh(),
        true,
    )
    .expect("canvas");
    assert_eq!(canvas.session_id(), "fresh-session");
    assert_eq!(canvas.canvas_id(), "canvas");
    assert_eq!(canvas.default_layer_id(), "layer");
    assert!(canvas.layer_ids().contains("layer"));
    let refused = development_canvas_descriptor(
        None,
        None,
        None,
        length(f64::NAN),
        length(0.0),
        fresh(),
        false,
    );
    assert_eq!(refused, Err(CanvasSpaceError));
}

#[test]
fn same_scope_shares_one_lock_and_other_scopes_have_their_own() {
    let mut coordinator = TokioExecutionCoordinator::new();
    let a = coordinator.acquire("a");
    assert_eq!(coordinator.acquire("a"), a);
    let b = coordinator.acquire("b");
    assert_ne!(a, b);
    assert_eq!(coordinator.key_count(), 2);
    coordinator.expire(a);
    assert_eq!(coordinator.key_count(), 1);
    assert_ne!(coordinator.acquire("a"), a);
}

#[test]
fn stale_keys_are_pruned() {
    let mut coordinator = TokioExecutionCoordinator::new();
    for index in 0..500 {
        let scope = format!("{index}");
        let lock = coordinator.acquire(&scope);
        coordinator.cleanup(&scope, lock);
    }
    assert_eq!(coordinator.key_count(), 0);
}

#[test]
fn old_lease_cleanup_cannot_remove_a_replacement_entry() {
    let mut coordinator = TokioExecutionCoordinator::new();
    let old_entry = coordinator.acquire("replacement");
    coordinator.expire(old_entry);
    let replacement = coordinator.acquire("replacement");
    assert_ne!(replacement, old_entry);

    coordinator.cleanup("replacement", old_entry);

    assert_eq!(coordinator.acquire("replacement"), replacement);
    assert_eq!(coordinator.key_count(), 1);
    coordinator.cleanup("replacement", replacement);
    assert_eq!(coordinator.key_count(), 0);
}

#[test]
fn state_reader_replays_across_pages_and_ignores_non_canvas_events() {
    let mut readings: Vec<_> = (0..101).map(|_| StrokeReading::Unrelated).collect();
    let stroke = |canvas: &str, stroke: &str| StrokeReading::Stroke {
        canvas_id: canvas.to_owned(),
        stroke_id: stroke.to_owned(),
    };
    readings.push(stroke("canvas", "stroke"));
    readings.push(stroke("other", "stroke"));
    readings.push(stroke("canvas", "other"));
    readings.push(stroke("canvas", "stroke"));
    let plan = load_stroke(&readings, "canvas", "stroke");
    assert_eq!(plan.apply, vec![101, 104]);
    assert!(!plan.corrupted);
}

#[test]
fn replay_may_go_page_by_page() {
    let reading = |index: usize| match index % 3 {
        0 => StrokeReading::Unrelated,
        1 => StrokeReading::Stroke { canvas_id: "c".to_owned(), stroke_id: "s".to_owned() },
        _ => StrokeReading::Stroke { canvas_id: "c".to_owned(), stroke_id: "other".to_owned() },
    };
    let all: Vec<_> = (0..20).map(reading).collect();
    let whole = load_stroke(&all, "c", "s");
    let first = load_stroke(&all[..8], "c", "s");
    let rest = load_stroke(&all[8..], "c", "s");
    let joined: Vec<_> =
        first.apply.into_iter().chain(rest.apply.into_iter().map(|index| index + 8)).collect();
    assert_eq!(joined, whole.apply);
}

#[test]
fn state_reader_rejects_corrupted_recognized_canvas_payloads() {
    let readings = [StrokeReading::Corrupted];
    let plan = load_stroke(&readings, "canvas", "stroke");
    assert!(plan.apply.is_empty());
    assert!(plan.corrupted);
}

#[test]
fn replay_failures_keep_backend_messages_only() {
    let text = || "down".to_owned();
    assert_eq!(map_storage_error(StorageError::BackendFailure { message: text() }), "down");
    assert_eq!(map_storage_error(StorageError::BackendUnavailable { message: text() }), "down");
    for error in [
        StorageError::InvalidQuery { reason: text() },
        StorageError::InvalidCursor { reason: text() },
        StorageError::InvalidCheckpoint { reason: text() },
        StorageError::EventConflict { event_id: text() },
    ] {
        assert_eq!(map_storage_error(error), "event store query failed");
    }
}

#[test]
fn empty_history_completes_and_request_shape_is_strict() {
    let handler = handler(DEFAULT_HISTORY_STORE_SCAN_LIMIT, 1024 * 1024);
    let page = run(&[]).run(&handler, &first_request()).expect("empty history should succeed");
    assert!(page.events().is_empty());
    assert!(page.complete());
    assert!(page.next_cursor().is_none());
    assert_eq!(page.canvas_id(), "canvas");
    assert_eq!(run(&[]).run(&handler, &None), Err(QueryHandlerError::InvalidQuery));
    assert_eq!(CANVAS_HISTORY_PAGE_QUERY_TYPE, "canvas.history.page");
}

#[test]
fn other_canvas_is_filtered_while_store_cursor_advances() {
    let records = [("other-event", "other"), ("target", "canvas")];
    let handler = handler(1, 1024 * 1024);
    let first = run(&records).run(&handler, &first_request()).expect("first page");
    assert!(first.events().is_empty());
    assert!(!first.complete());
    let second = run(&records)
        .run(
            &handler,
            &Some(CanvasHistoryRequest {
                canvas_id: "canvas".to_owned(),
                continuation: Some(Continuation {
                    checkpoint: first.checkpoint().to_owned(),
                    cursor: first.next_cursor().expect("continuation cursor").to_owned(),
                }),
            }),
        )
        .expect("continuation");
    assert!(second.complete());
    assert_eq!(second.events().len(), 1);
    assert_eq!(second.events()[0].event_id(), "target");
    assert_eq!(second.checkpoint(), first.checkpoint());
}

#[test]
fn known_canvas_event_with_corrupted_payload_fails() {
    let page = |canvas: CanvasReading| HistoryStorePage {
        records: vec![HistoryRecord { event: event("id"), canvas }],
        next_cursor: None,
    };
    for reading in [CanvasReading::Invalid, CanvasReading::NoCanvas] {
        assert_eq!(
            history_page("canvas", "1", &page(reading)),
            Err(QueryHandlerError::Internal)
        );
    }
    let whole = history_page("canvas", "1", &page(CanvasReading::Canvas("canvas".to_owned())))
        .expect("page");
    let dto = &whole.events()[0];
    assert_eq!(
        (dto.event_id(), dto.session_id(), dto.actor_id(), dto.action_id()),
        ("id", "session", "actor", "action")
    );
    assert_eq!(
        (dto.event_type(), dto.occurred_at(), dto.payload(), dto.metadata()),
        ("canvas.stroke.began", "1", "{}", "{}")
    );
}

#[test]
fn unauthorized_request_never_captures_a_checkpoint() {
    let handler = handler(DEFAULT_HISTORY_STORE_SCAN_LIMIT, 1024 * 1024);
    let mut store = HistoryRun { session: "elsewhere", ..run(&[]) };
    assert_eq!(store.run(&handler, &first_request()), Err(QueryHandlerError::Unauthorized));
    assert_eq!(store.captures, 0);
}

#[test]
fn authorized_backend_unavailable_maps_to_unavailable() {
    let handler = handler(DEFAULT_HISTORY_STORE_SCAN_LIMIT, 1024 * 1024);
    let mut store = HistoryRun { capture_failure: true, ..run(&[]) };
    assert_eq!(store.run(&handler, &first_request()), Err(QueryHandlerError::Unavailable));
    assert_eq!(store.captures, 1);
}

#[test]
fn production_authorizer_fails_closed() {
    let refused = RejectAllCanvasHistoryReadAuthorizer.authorize_session_read("session");
    assert_eq!(refused, Err(CanvasHistoryReadAuthorizationError::Unauthorized));
    let facts = HistoryFacts {
        canvas: Some(CanvasLookup::Found("session".to_owned())),
        authorization: Some(refused),
        ..HistoryFacts::new()
    };
    let decision =
        handler(DEFAULT_HISTORY_STORE_SCAN_LIMIT, 1024 * 1024).execute(&first_request(), &facts);
    assert!(matches!(decision, HistoryDecision::Fail(QueryHandlerError::Unauthorized)));
}

#[test]
fn unknown_canvas_is_not_found() {
    let handler = handler(DEFAULT_HISTORY_STORE_SCAN_LIMIT, 1024 * 1024);
    let request = Some(CanvasHistoryRequest {
        canvas_id: "unknown".to_owned(),
        continuation: None,
    });
    assert_eq!(run(&[]).run(&handler, &request), Err(QueryHandlerError::NotFound));
    let facts = HistoryFacts { canvas: Some(CanvasLookup::Failed), ..HistoryFacts::new() };
    assert!(matches!(
        handler.execute(&request, &facts),
        HistoryDecision::Fail(QueryHandlerError::Unavailable)
    ));
}

#[test]
fn wrong_store_continuation_is_invalid_query() {
    let handler = handler(DEFAULT_HISTORY_STORE_SCAN_LIMIT, 1024 * 1024);
    let request = Some(CanvasHistoryRequest {
        canvas_id: "canvas".to_owned(),
        continuation: Some(Continuation {
            checkpoint: "foreign".to_owned(),
            cursor: "foreign-cursor".to_owned(),
        }),
    });
    let mut facts = HistoryFacts {
        canvas: Some(CanvasLookup::Found("session".to_owned())),
        authorization: Some(Ok(())),
        ..HistoryFacts::new()
    };
    match handler.execute(&request, &facts) {
        HistoryDecision::QueryEvents { checkpoint, cursor, limit, .. } => {
            assert_eq!(checkpoint, "foreign");
            assert_eq!(cursor.as_deref(), Some("foreign-cursor"));
            assert_eq!(limit, DEFAULT_HISTORY_STORE_SCAN_LIMIT);
        }
        other => panic!("unexpected {other:?}"),
    }
    facts.page = Some(Err(StorageError::InvalidCheckpoint { reason: "foreign".to_owned() }));
    assert!(matches!(
        handler.execute(&request, &facts),
        HistoryDecision::Fail(QueryHandlerError::InvalidQuery)
    ));
}

#[test]
fn response_size_failure_returns_no_cursor() {
    let handler = handler(1, 1);
    assert_eq!(
        run(&[("id", "canvas")]).run(&handler, &first_request()),
        Err(QueryHandlerError::Internal)
    );
    assert_eq!(handler.guard_response_size(Some(1)), Ok(()));
    assert_eq!(handler.guard_response_size(Some(2)), Err(QueryHandlerError::Internal));
    assert_eq!(handler.guard_response_size(None), Err(QueryHandlerError::Internal));
}

#[test]
fn scan_limits_are_bounded() {
    assert!(CanvasHistoryQueryHandler::new(0, 1).is_err());
    assert!(CanvasHistoryQueryHandler::new(1, 0).is_err());
    assert!(CanvasHistoryQueryHandler::new(MAX_HISTORY_STORE_SCAN_LIMIT + 1, 1).is_err());
    assert!(CanvasHistoryQueryHandler::new(MAX_HISTORY_STORE_SCAN_LIMIT, 1).is_ok());
    assert_eq!((DEFAULT_HISTORY_STORE_SCAN_LIMIT, MAX_HISTORY_STORE_SCAN_LIMIT), (64, 256));
}

#[test]
fn history_failures_are_told_apart() {
    let authorization = [
        (CanvasHistoryReadAuthorizationError::Unauthorized, QueryHandlerError::Unauthorized),
        (CanvasHistoryReadAuthorizationError::Unavailable, QueryHandlerError::Unavailable),
        (CanvasHistoryReadAuthorizationError::Internal, QueryHandlerError::Internal),
    ];
    for (error, expected) in authorization {
        assert_eq!(map_authorization_error(error), expected);
    }
    assert_eq!(
        CanvasHistoryReadAuthorizationError::Unauthorized.message(),
        "Canvas history read is unauthorized"
    );
    assert_eq!(
        CanvasHistoryReadAuthorizationError::Unavailable.message(),
        "Canvas history authorization is unavailable"
    );
    assert_eq!(
        CanvasHistoryReadAuthorizationError::Internal.message(),
        "Canvas history authorization failed"
    );
    let text = || "x".to_owned();
    let storage = [
        (
            StorageError::InvalidQuery { reason: text() },
            QueryHandlerError::Internal,
            QueryHandlerError::InvalidQuery,
        ),
        (
            StorageError::InvalidCursor { reason: text() },
            QueryHandlerError::Internal,
            QueryHandlerError::InvalidQuery,
        ),
        (
            StorageError::InvalidCheckpoint { reason: text() },
            QueryHandlerError::Internal,
            QueryHandlerError::InvalidQuery,
        ),
        (
            StorageError::BackendUnavailable { message: text() },
            QueryHandlerError::Unavailable,
            QueryHandlerError::Unavailable,
        ),
        (
            StorageError::BackendFailure { message: text() },
            QueryHandlerError::Internal,
            QueryHandlerError::Internal,
        ),
        (
            StorageError::EventConflict { event_id: text() },
            QueryHandlerError::Internal,
            QueryHandlerError::Internal,
        ),
    ];
    for (error, captured, queried) in storage {
        assert_eq!(map_capture_error(&error), captured);
        assert_eq!(map_query_error(&error), queried);
    }
}

#[test]
fn history_pages_add_up_to_the_whole_history() {
    let records: Vec<_> = (0..37).map(|index| format!("e{index}")).collect();
    let recorded: Vec<(&str, &str)> = records
        .iter()
        .enumerate()
        .map(|(index, id)| (id.as_str(), if index % 2 == 0 { "canvas" } else { "other" }))
        .collect();
    let handler = handler(5, 1024);
    let mut request = first_request();
    let mut seen = Vec::new();
    let mut stored = recorded.clone();
    loop {
        let page = run(&stored).run(&handler, &request).expect("page");
        stored.push(("late", "canvas"));
        seen.extend(page.events().iter().map(|event| event.event_id().to_owned()));
        assert_eq!(page.complete(), page.next_cursor().is_none());
        match page.next_cursor() {
            None => break,
            Some(cursor) => {
                request = Some(CanvasHistoryRequest {
                    canvas_id: "canvas".to_owned(),
                    continuation: Some(Continuation {
                        checkpoint: page.checkpoint().to_owned(),
                        cursor: cursor.to_owned(),
                    }),
                });
            }
        }
    }
    let expected: Vec<_> = (0..37).step_by(2).map(|index| format!("e{index}")).collect();
    assert_eq!(seen, expected);
}
