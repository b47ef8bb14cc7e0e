//! The persistent EventStore, driven over a list of rows and over a real database.

use orbitrelay::event_query::{
    query_bounds, query_events, query_statement, EventPage, EventQuery, PageCollector,
    PositionReading, QueriedRow, SqlValue,
};
use orbitrelay::event_store::{
    append_event, append_sequence, check_integrity_report, check_physical_store_id,
    check_queue_capacity, check_schema_version, current_count, decode_row, encode_event,
    encode_row, get_event, map_send_error, map_sqlite_error, stored_event, verify_all_events,
    AppendStep, Event, EventParts, MetadataStep, SendFault, SqliteCode, StorageError, StoredEvent,
    StoredRow,
};
use orbitrelay::event_store_open::{initialize_connection, OpenFacts, OpenStage, OpenStep};
use orbitrelay::worker::{
    close_step, CloseFacts, CloseFailure, CloseStep, JoinFault, WorkerHandle, WorkerRefusal,
};

fn event(id: &str, session: &str, time: u32, kind: &str) -> Event {
    Event {
        event_id: id.to_owned(),
        session_id: session.to_owned(),
        actor_id: "actor".to_owned(),
        action_id: format!("action-{id}"),
        event_type: kind.to_owned(),
        occurred_at: format!("{time}"),
        payload: "{}".to_owned(),
        metadata: "{}".to_owned(),
    }
}

fn copy_row(row: &StoredRow) -> StoredRow {
    StoredRow {
        append_sequence: row.append_sequence,
        event_id: row.event_id.clone(),
        session_id: row.session_id.clone(),
        actor_id: row.actor_id.clone(),
        action_id: row.action_id.clone(),
        occurred_at: row.occurred_at.clone(),
        event_type: row.event_type.clone(),
        payload: row.payload.clone(),
        metadata: row.metadata.clone(),
    }
}

/// A store whose table is a list, with one epoch for each opening.
struct ListStore {
    rows: Vec<StoredRow>,
}

impl ListStore {
    fn new() -> Self {
        Self { rows: Vec::new() }
    }

    fn max(&self) -> Option<i64> {
        self.rows.iter().map(|row| row.append_sequence).max()
    }

    fn append(&mut self, event: &Event) -> Result<StoredEvent, StorageError> {
        let existing = self
            .rows
            .iter()
            .find(|row| row.event_id.as_ref() == Some(&event.event_id))
            .map(copy_row);
        match append_event(event, existing)? {
            AppendStep::AlreadyStored(stored) => Ok(stored),
            AppendStep::Insert => {
                let sequence = append_sequence(self.max())?;
                self.rows.push(encode_row(sequence, event));
                stored_event(u64::try_from(sequence).unwrap(), event.copy())
            }
        }
    }

    fn query(&self, query: &EventQuery, times: &[&str]) -> Result<EventPage, StorageError> {
        let (start, upper) = query_bounds(query, self.max())?;
        let rows = self
            .rows
            .iter()
            .filter(|row| row.append_sequence >= start && row.append_sequence < upper)
            .filter(|row| query.matches(&decode_row(copy_row(row)).unwrap().1))
            .map(|row| {
                Some(QueriedRow {
                    in_time_range: times.is_empty()
                        || times.contains(&row.occurred_at.as_deref().unwrap()),
                    row: copy_row(row),
                })
            })
            .collect();
        query_events(query, rows)
    }
}

fn all(limit: usize) -> EventQuery {
    EventQuery {
        session_id: None,
        actor_id: None,
        event_types: Vec::new(),
        limit,
        upper_bound: None,
        after_cursor: None,
        refusal: None,
    }
}

/// Opens a store whose database holds the given identity and rows, and returns its identity.
fn open(
    stored: &mut Option<String>,
    rows: &[StoredRow],
    fresh: &str,
) -> Result<String, StorageError> {
    let mut facts = OpenFacts::new();
    loop {
        match initialize_connection(&facts, fresh) {
            OpenStage::Opened(identity) => return Ok(identity),
            OpenStage::Failed(error) => return Err(error),
            OpenStage::StoreIdentity(identity) => {
                *stored = Some(identity);
                facts.identity_created = Some(Ok(()));
            }
            OpenStage::Needs(step) => match step {
                OpenStep::CreateDirectory => facts.directory = Some(true),
                OpenStep::Open => facts.opened = Some(Ok(())),
                OpenStep::EnableForeignKeys => facts.foreign_keys = Some(Ok(())),
                OpenStep::EnableWriteAheadLog => facts.journal = Some(Ok(())),
                OpenStep::SetSynchronous => facts.synchronous = Some(Ok(())),
                OpenStep::SetBusyTimeout => facts.busy_timeout = Some(Ok(())),
                OpenStep::CreateSchema => facts.schema = Some(Ok(())),
                OpenStep::ReadVersion => facts.version = Some(Ok(Some("1".to_owned()))),
                OpenStep::CreateVersion => facts.version_created = Some(Ok(())),
                OpenStep::ReadIdentity => {
                    facts.identity = Some(Ok(stored.as_ref().map(|text| {
                        if text == "garbage" {
                            None
                        } else {
                            Some(text.clone())
                        }
                    })));
                }
                OpenStep::CheckIntegrity => facts.report = Some(Some("ok".to_owned())),
                OpenStep::ReadEvents => {
                    facts.events = Some(Ok(rows.iter().map(|row| Some(copy_row(row))).collect()));
                }
            },
        }
    }
}

#[test]
fn persists_events_and_order_across_reopen() {
    let mut stored_identity = None;
    let mut store = ListStore::new();
    let physical_id = open(&mut stored_identity, &store.rows, "fresh").expect("open");
    assert_eq!(physical_id, "fresh");
    let first = event("one", "session", 200, "second");
    let second = event("two", "session", 100, "first");
    assert_eq!(store.append(&first).expect("append").position, 1);
    assert_eq!(store.append(&second).expect("append").position, 2);

    let reopened = open(&mut stored_identity, &store.rows, "another").expect("reopen");
    assert_eq!(reopened, physical_id);
    let page = store.query(&all(100), &[]).expect("query");
    assert_eq!(page.events[0].event, first);
    assert_eq!(page.events[1].event, second);
    assert_ne!(page.events[0].position, page.events[1].position);
    assert_eq!(page.next_cursor, None);
    let found = get_event(Some(copy_row(&store.rows[1]))).expect("get").expect("present");
    assert_eq!((found.position, found.event), (2, second));
    assert_eq!(get_event(None), Ok(None));
    let mut malformed = Some("garbage".to_owned());
    assert_eq!(
        open(&mut malformed, &store.rows, "fresh"),
        Err(StorageError::BackendFailure {
            message: "SQLite physical store identity is malformed".to_owned()
        })
    );
}

#[test]
fn idempotency_and_conflict_match_memory_semantics() {
    let mut store = ListStore::new();
    let original = event("id", "session", 1, "fact");
    let first = store.append(&original).expect("append");
    let duplicate = store.append(&original).expect("idempotent append");
    assert_eq!(first, duplicate);
    let conflict = store
        .append(&event("id", "other-session", 2, "other"))
        .expect_err("conflict");
    assert_eq!(conflict, StorageError::EventConflict { event_id: "id".to_owned() });
    assert_eq!(store.rows.len(), 1);
}

#[test]
fn checkpoint_excludes_later_events_and_old_tokens_invalidate() {
    let mut store = ListStore::new();
    store.append(&event("1", "session", 1, "one")).expect("append");
    store.append(&event("2", "session", 2, "two")).expect("append");
    let checkpoint = current_count(store.max()).expect("checkpoint");
    assert_eq!(checkpoint, 2);
    assert_eq!(store.query(&all(1), &[]).expect("query").next_cursor, Some(1));
    store.append(&event("3", "session", 3, "three")).expect("append");
    let bounded = EventQuery {
        upper_bound: Some(PositionReading::At(checkpoint)),
        ..all(100)
    };
    assert_eq!(store.query(&bounded, &[]).expect("bounded query").events.len(), 2);
    let foreign = EventQuery { upper_bound: Some(PositionReading::Foreign), ..all(100) };
    assert!(store.query(&foreign, &[]).is_err());
    let foreign = EventQuery { after_cursor: Some(PositionReading::Foreign), ..all(100) };
    assert!(store.query(&foreign, &[]).is_err());
}

#[test]
fn supports_filters_and_cursor_pagination() {
    let mut store = ListStore::new();
    for (index, kind) in [(100, "selected"), (200, "selected"), (300, "other")] {
        store.append(&event(&format!("{index}"), "session", index, kind)).expect("append");
    }
    let page = store
        .query(
            &EventQuery {
                session_id: Some("session".to_owned()),
                event_types: vec!["selected".to_owned()],
                ..all(1)
            },
            &["100", "200"],
        )
        .expect("filtered query");
    assert_eq!(page.events.len(), 1);
    assert!(page.next_cursor.is_some());
    let second = store
        .query(
            &EventQuery {
                event_types: vec!["selected".to_owned()],
                after_cursor: page.next_cursor.map(PositionReading::At),
                ..all(1)
            },
            &[],
        )
        .expect("continuation query");
    assert_eq!(second.events.len(), 1);
    assert_eq!(second.events[0].event.event_id, "200");
    assert_eq!(second.next_cursor, None);
    let timed = store.query(&all(10), &["300"]).expect("timed query");
    assert_eq!(timed.events.len(), 1);
    assert_eq!(timed.events[0].position, 3);
}

#[test]
fn following_cursors_visits_every_event_once() {
    let mut store = ListStore::new();
    for index in 0..23 {
        let kind = if index % 3 == 0 { "a" } else { "b" };
        store.append(&event(&format!("{index}"), "session", 1, kind)).expect("append");
    }
    let mut seen = Vec::new();
    let mut cursor = None;
    loop {
        let page = store
            .query(
                &EventQuery {
                    event_types: vec!["b".to_owned()],
                    after_cursor: cursor.map(PositionReading::At),
                    upper_bound: Some(PositionReading::At(20)),
                    ..all(4)
                },
                &[],
            )
            .expect("page");
        seen.extend(page.events.iter().map(|stored| stored.event.event_id.clone()));
        cursor = page.next_cursor;
        if cursor.is_none() {
            break;
        }
    }
    let expected: Vec<_> =
        (0..20).filter(|index| index % 3 != 0).map(|index| format!("{index}")).collect();
    assert_eq!(seen, expected);
}

#[test]
fn rejects_tokens_from_another_database() {
    let store = ListStore::new();
    let error = store
        .query(&EventQuery { upper_bound: Some(PositionReading::Foreign), ..all(1) }, &[])
        .expect_err("foreign checkpoint must fail");
    assert!(matches!(error, StorageError::InvalidCheckpoint { .. }));
}

#[test]
fn query_bounds_are_checked_in_order() {
    let reason = |query: EventQuery, max: Option<i64>| match query_bounds(&query, max) {
        Err(StorageError::InvalidQuery { reason })
        | Err(StorageError::InvalidCheckpoint { reason })
        | Err(StorageError::InvalidCursor { reason }) => reason,
        Err(StorageError::BackendFailure { message }) => message,
        other => panic!("unexpected {other:?}"),
    };
    let with = |upper: Option<PositionReading>, after: Option<PositionReading>| EventQuery {
        upper_bound: upper,
        after_cursor: after,
        ..all(1)
    };
    assert_eq!(query_bounds(&all(1), None), Ok((0, 0)));
    assert_eq!(query_bounds(&all(1), Some(4)), Ok((0, 5)));
    assert_eq!(
        query_bounds(&with(Some(PositionReading::At(3)), Some(PositionReading::At(3))), Some(4)),
        Ok((3, 3))
    );
    assert_eq!(
        reason(EventQuery { refusal: Some("limit".to_owned()), ..all(0) }, Some(-1)),
        "limit"
    );
    assert_eq!(
        reason(all(1), Some(-1)),
        "SQLite EventStore append sequence is negative"
    );
    assert_eq!(
        reason(with(Some(PositionReading::At(6)), Some(PositionReading::Foreign)), Some(4)),
        "checkpoint is beyond the stored event range"
    );
    assert_eq!(
        reason(with(None, Some(PositionReading::Foreign)), Some(4)),
        "cursor does not belong to this SQLite store epoch"
    );
    assert_eq!(
        reason(with(None, Some(PositionReading::At(0))), Some(4)),
        "cursor position must be greater than zero"
    );
    assert_eq!(
        reason(with(Some(PositionReading::At(2)), Some(PositionReading::At(3))), Some(4)),
        "cursor is beyond the query checkpoint"
    );
    assert_eq!(reason(all(1), Some(i64::MAX)), "query bound overflow");
    assert_eq!(
        reason(with(None, Some(PositionReading::At(1 << 63))), Some(i64::MAX)),
        "query cursor overflow"
    );
}

#[test]
fn statements_narrow_by_what_the_query_asks_for() {
    let base = "SELECT append_sequence, event_id, session_id, actor_id, action_id, \
                occurred_at_json, event_type, payload_json, metadata_json FROM events \
                WHERE append_sequence >= ? AND append_sequence < ?";
    let plain = query_statement(&all(1), 0, 5);
    assert_eq!(plain.sql, format!("{base} ORDER BY append_sequence ASC"));
    assert_eq!(plain.values, vec![SqlValue::Integer(0), SqlValue::Integer(5)]);
    let narrow = query_statement(
        &EventQuery {
            session_id: Some("s".to_owned()),
            actor_id: Some("a".to_owned()),
            event_types: vec!["x".to_owned(), "y".to_owned(), "z".to_owned()],
            ..all(1)
        },
        2,
        9,
    );
    assert_eq!(
        narrow.sql,
        format!(
            "{base} AND session_id = ? AND actor_id = ? AND event_type IN (?, ?, ?) \
             ORDER BY append_sequence ASC"
        )
    );
    assert_eq!(
        narrow.values,
        vec![
            SqlValue::Integer(2),
            SqlValue::Integer(9),
            SqlValue::Text("s".to_owned()),
            SqlValue::Text("a".to_owned()),
            SqlValue::Text("x".to_owned()),
            SqlValue::Text("y".to_owned()),
            SqlValue::Text("z".to_owned()),
        ]
    );
}

#[test]
fn statements_run_on_a_real_database() {
    let connection = rusqlite::Connection::open_in_memory().expect("open");
    connection
        .execute_batch(
            "CREATE TABLE events (append_sequence INTEGER PRIMARY KEY NOT NULL, \
             event_id TEXT NOT NULL UNIQUE, session_id TEXT NOT NULL, actor_id TEXT NOT NULL, \
             action_id TEXT NOT NULL, occurred_at_json TEXT NOT NULL, event_type TEXT NOT NULL, \
             payload_json TEXT NOT NULL, metadata_json TEXT NOT NULL);",
        )
        .expect("schema");
    for (index, session) in ["a", "b", "a", "a"].into_iter().enumerate() {
        let row = encode_row(index as i64, &event(&format!("e{index}"), session, 1, "kind"));
        connection
            .execute(
                "INSERT INTO events VALUES (?1, ?2, ?3, ?4, ?5, ?6, ?7, ?8, ?9)",
                (
                    row.append_sequence,
                    row.event_id,
                    row.session_id,
                    row.actor_id,
                    row.action_id,
                    row.occurred_at,
                    row.event_type,
                    row.payload,
                    row.metadata,
                ),
            )
            .expect("insert");
    }
    let max: Option<i64> = connection
        .query_row("SELECT MAX(append_sequence) FROM events", [], |row| row.get(0))
        .expect("max");
    let query = EventQuery {
        session_id: Some("a".to_owned()),
        event_types: vec!["kind".to_owned(), "other".to_owned()],
        ..all(2)
    };
    let (start, upper) = query_bounds(&query, max).expect("bounds");
    let statement = query_statement(&query, start, upper);
    let values = statement.values.into_iter().map(|value| match value {
        SqlValue::Integer(value) => rusqlite::types::Value::Integer(value),
        SqlValue::Text(value) => rusqlite::types::Value::Text(value),
    });
    let mut prepared = connection.prepare(&statement.sql).expect("prepare");
    let rows = prepared
        .query_map(rusqlite::params_from_iter(values), |row| {
            Ok(StoredRow {
                append_sequence: row.get(0)?,
                event_id: row.get(1)?,
                session_id: row.get(2)?,
                actor_id: row.get(3)?,
                action_id: row.get(4)?,
                occurred_at: row.get(5)?,
                event_type: row.get(6)?,
                payload: row.get(7)?,
                metadata: row.get(8)?,
            })
        })
        .expect("query");
    let mut collector = PageCollector::new();
    let mut full = false;
    for row in rows {
        let row = row.ok().map(|row| QueriedRow { row, in_time_range: true });
        if collector.receive(&query, row).expect("row") {
            full = true;
            break;
        }
    }
    let page = collector.finish(full);
    let ids: Vec<_> = page.events.iter().map(|stored| stored.event.event_id.as_str()).collect();
    assert_eq!(ids, ["e0", "e2"]);
    assert_eq!(page.next_cursor, Some(3));
}

#[test]
fn malformed_event_row_fails_integrity_gate() {
    let good = || encode_row(0, &event("id", "session", 1, "kind"));
    let problem = |row: StoredRow| match decode_row(row) {
        Err(StorageError::BackendFailure { message }) => message,
        other => panic!("unexpected {other:?}"),
    };
    assert_eq!(
        problem(StoredRow { append_sequence: -1, ..good() }),
        "SQLite EventStore append sequence is invalid"
    );
    assert_eq!(
        problem(StoredRow { event_id: None, metadata: None, ..good() }),
        "SQLite EventStore EventId is invalid"
    );
    assert_eq!(
        problem(StoredRow { session_id: None, ..good() }),
        "SQLite EventStore SessionId is invalid"
    );
    assert_eq!(
        problem(StoredRow { actor_id: None, ..good() }),
        "SQLite EventStore ActorId is invalid"
    );
    assert_eq!(
        problem(StoredRow { action_id: None, ..good() }),
        "SQLite EventStore ActionId is invalid"
    );
    assert_eq!(
        problem(StoredRow { occurred_at: None, ..good() }),
        "SQLite EventStore timestamp is invalid"
    );
    assert_eq!(
        problem(StoredRow { payload: None, ..good() }),
        "SQLite EventStore payload is invalid"
    );
    assert_eq!(
        problem(StoredRow { metadata: None, ..good() }),
        "SQLite EventStore metadata is invalid"
    );
    let gate = |rows: Vec<Option<StoredRow>>| match verify_all_events(&rows) {
        Err(StorageError::BackendFailure { message }) => Some(message),
        Ok(()) => None,
        other => panic!("unexpected {other:?}"),
    };
    assert_eq!(gate(vec![]), None);
    assert_eq!(gate(vec![Some(good())]), None);
    assert_eq!(gate(vec![None]).as_deref(), Some("SQLite EventStore row read failed"));
    assert_eq!(
        gate(vec![Some(good()), Some(good())]).as_deref(),
        Some("SQLite EventStore append sequence is not contiguous")
    );
    assert_eq!(
        gate(vec![Some(StoredRow { payload: None, ..good() })]).as_deref(),
        Some("SQLite EventStore payload is invalid")
    );
}

#[test]
fn sound_log_has_the_sequence_number_of_each_place() {
    let row = |sequence: i64| encode_row(sequence, &event("id", "session", 1, "kind"));
    let rows: Vec<_> = (0..5).map(|sequence| Some(row(sequence))).collect();
    assert_eq!(verify_all_events(&rows), Ok(()));
    for broken in 0..5 {
        let change = |with: fn(StoredRow) -> Option<StoredRow>| {
            let rows: Vec<_> = (0..5)
                .map(|sequence| {
                    if sequence == broken { with(row(sequence)) } else { Some(row(sequence)) }
                })
                .collect();
            verify_all_events(&rows)
        };
        assert!(change(|_| None).is_err());
        assert!(change(|row| Some(StoredRow { event_id: None, ..row })).is_err());
        assert!(change(|row| Some(StoredRow { metadata: None, ..row })).is_err());
        assert!(
            change(|row| Some(StoredRow { append_sequence: row.append_sequence + 1, ..row }))
                .is_err()
        );
    }
}

#[test]
fn rejects_schema_that_is_newer_than_supported() {
    let gate = |value: Option<&str>| check_schema_version(&value.map(str::to_owned));
    assert_eq!(gate(None), Ok(MetadataStep::Create));
    assert_eq!(gate(Some("1")), Ok(MetadataStep::Keep));
    assert_eq!(gate(Some("+1")), Ok(MetadataStep::Keep));
    let message = |value: &str| match gate(Some(value)) {
        Err(StorageError::BackendFailure { message }) => message,
        other => panic!("unexpected {other:?}"),
    };
    assert_eq!(message("999"), "SQLite schema version is newer than this adapter");
    assert_eq!(message("0"), "SQLite schema migration is required");
    assert_eq!(message("-1"), "SQLite schema migration is required");
    assert_eq!(message("one"), "SQLite schema version is malformed");
    assert_eq!(message("9223372036854775808"), "SQLite schema version is malformed");
}

#[test]
fn storage_failures_are_told_apart() {
    assert_eq!(
        map_sqlite_error("operation failed", SqliteCode::DatabaseBusy),
        StorageError::BackendUnavailable { message: "SQLite EventStore is busy".to_owned() }
    );
    assert_eq!(
        map_sqlite_error("operation failed", SqliteCode::DatabaseLocked),
        StorageError::BackendUnavailable { message: "SQLite EventStore is busy".to_owned() }
    );
    assert_eq!(
        map_sqlite_error("operation failed", SqliteCode::Other),
        StorageError::BackendFailure { message: "operation failed".to_owned() }
    );
    assert_eq!(
        map_send_error(SendFault::Full),
        StorageError::BackendUnavailable { message: "SQLite command queue is full".to_owned() }
    );
    assert_eq!(
        map_send_error(SendFault::Closed),
        StorageError::BackendUnavailable { message: "SQLite worker is unavailable".to_owned() }
    );
    assert_eq!(
        check_queue_capacity(0),
        Err(StorageError::InvalidQuery {
            reason: "SQLite command queue capacity must be greater than zero".to_owned()
        })
    );
    assert_eq!(check_queue_capacity(1), Ok(()));
    assert_eq!(check_physical_store_id(None), Ok(MetadataStep::Create));
    assert_eq!(check_physical_store_id(Some(true)), Ok(MetadataStep::Keep));
    assert!(check_physical_store_id(Some(false)).is_err());
    assert_eq!(check_integrity_report(&Some("ok".to_owned())), Ok(()));
    assert!(check_integrity_report(&Some("row 1 missing".to_owned())).is_err());
    assert!(check_integrity_report(&None).is_err());
    assert_eq!(append_sequence(None), Ok(0));
    assert_eq!(append_sequence(Some(41)), Ok(42));
    assert!(append_sequence(Some(i64::MAX)).is_err());
    assert!(stored_event(u64::MAX, event("id", "s", 1, "k")).is_err());
}

#[test]
fn events_are_encoded_part_by_part() {
    let parts = |payload: bool, metadata: bool, time: bool| EventParts {
        event_id: "id".to_owned(),
        session_id: "session".to_owned(),
        actor_id: "actor".to_owned(),
        action_id: "action-id".to_owned(),
        event_type: "kind".to_owned(),
        occurred_at: time.then(|| "1".to_owned()),
        payload: payload.then(|| "{}".to_owned()),
        metadata: metadata.then(|| "{}".to_owned()),
    };
    assert_eq!(encode_event(parts(true, true, true)), Ok(event("id", "session", 1, "kind")));
    let message = |result: Result<Event, StorageError>| match result {
        Err(StorageError::BackendFailure { message }) => message,
        other => panic!("unexpected {other:?}"),
    };
    assert_eq!(
        message(encode_event(parts(false, false, false))),
        "event payload serialization failed"
    );
    assert_eq!(
        message(encode_event(parts(true, false, false))),
        "event metadata serialization failed"
    );
    assert_eq!(
        message(encode_event(parts(true, true, false))),
        "event timestamp serialization failed"
    );
}

#[test]
fn opening_runs_every_step_in_order() {
    let mut facts = OpenFacts::new();
    let step = |facts: &OpenFacts| match initialize_connection(facts, "fresh") {
        OpenStage::Needs(step) => Some(step),
        OpenStage::Opened(identity) => {
            assert_eq!(identity, "fresh");
            None
        }
        other => panic!("unexpected {other:?}"),
    };
    assert_eq!(step(&facts), Some(OpenStep::CreateDirectory));
    facts.directory = Some(true);
    assert_eq!(step(&facts), Some(OpenStep::Open));
    facts.opened = Some(Ok(()));
    assert_eq!(step(&facts), Some(OpenStep::EnableForeignKeys));
    facts.foreign_keys = Some(Ok(()));
    facts.journal = Some(Ok(()));
    facts.synchronous = Some(Ok(()));
    assert_eq!(step(&facts), Some(OpenStep::SetBusyTimeout));
    facts.busy_timeout = Some(Ok(()));
    facts.schema = Some(Ok(()));
    assert_eq!(step(&facts), Some(OpenStep::ReadVersion));
    facts.version = Some(Ok(None));
    assert_eq!(step(&facts), Some(OpenStep::CreateVersion));
    facts.version_created = Some(Ok(()));
    facts.identity = Some(Ok(None));
    assert!(matches!(
        initialize_connection(&facts, "fresh"),
        OpenStage::StoreIdentity(identity) if identity == "fresh"
    ));
    facts.identity_created = Some(Ok(()));
    assert_eq!(step(&facts), Some(OpenStep::CheckIntegrity));
    facts.report = Some(Some("ok".to_owned()));
    assert_eq!(step(&facts), Some(OpenStep::ReadEvents));
    facts.events = Some(Ok(vec![Some(encode_row(0, &event("id", "s", 1, "k")))]));
    assert_eq!(step(&facts), None);
    facts.events = Some(Ok(vec![Some(encode_row(1, &event("id", "s", 1, "k")))]));
    assert!(matches!(
        initialize_connection(&facts, "fresh"),
        OpenStage::Failed(StorageError::BackendFailure { .. })
    ));
    facts.opened = Some(Err(SqliteCode::DatabaseBusy));
    assert!(matches!(
        initialize_connection(&facts, "fresh"),
        OpenStage::Failed(StorageError::BackendUnavailable { .. })
    ));
}

#[test]
fn close_stops_accepting_commands() {
    let mut handle = WorkerHandle::new();
    assert_eq!(handle.sender(), Ok(()));
    let before = handle.begin_close();
    assert_eq!(handle.sender(), Err(WorkerRefusal::Closed));
    let mut facts = CloseFacts { sent: None, answered: None, joined: None };
    assert_eq!(close_step(&before, false, facts), CloseStep::SendShutdown);
    facts.sent = Some(true);
    assert_eq!(close_step(&before, false, facts), CloseStep::AwaitAnswer);
    facts.answered = Some(true);
    assert_eq!(close_step(&before, false, facts), CloseStep::Join);
    handle.begin_join();
    facts.joined = Some(Ok(()));
    assert_eq!(close_step(&before, false, facts), CloseStep::Done);
    let again = handle.begin_close();
    let none = CloseFacts { sent: None, answered: None, joined: None };
    assert_eq!(close_step(&again, false, none), CloseStep::Done);
    assert_eq!(close_step(&again, true, none), CloseStep::Done);
    facts.joined = Some(Err(JoinFault::Panicked));
    assert_eq!(
        close_step(&before, true, facts),
        CloseStep::Fail(CloseFailure::Join(JoinFault::Panicked))
    );
    facts.answered = Some(false);
    assert_eq!(
        close_step(&before, true, facts),
        CloseStep::Fail(CloseFailure::AnswerLost)
    );
    facts.sent = Some(false);
    assert_eq!(close_step(&before, true, facts), CloseStep::Fail(CloseFailure::Stopped));
    let detached = WorkerHandle { closed: false, attached: false, joinable: false };
    assert_eq!(detached.sender(), Err(WorkerRefusal::Detached));
}
