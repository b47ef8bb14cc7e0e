//! Decisions of the persistent EventStore.
//!
//! The database itself is driven from outside: it hands in rows and hands back what to write. The
//! sequence numbers of the stored Events are `0, 1, 2, ..`, in the order in which they were
//! appended; a position in the log is the number of Events before it.

use vstd::prelude::*;

use crate::text::{chars_of, decimal, optional_text, parse_signed, same_text, signed_value};

verus! {

/// The first persistent schema supported by this adapter.
pub const SUPPORTED_SCHEMA_VERSION: i64 = 1;

/// Default bounded command queue capacity.
pub const DEFAULT_COMMAND_QUEUE_CAPACITY: usize = 256;

/// Errors of the EventStore port.
#[derive(Debug, PartialEq, Eq)]
pub enum StorageError {
    /// The query itself is invalid.
    InvalidQuery {
        /// What is wrong with it.
        reason: String,
    },
    /// The checkpoint cannot be used with this store.
    InvalidCheckpoint {
        /// What is wrong with it.
        reason: String,
    },
    /// The cursor cannot be used with this store and checkpoint.
    InvalidCursor {
        /// What is wrong with it.
        reason: String,
    },
    /// A different Event is stored under the same identifier.
    EventConflict {
        /// The identifier.
        event_id: String,
    },
    /// The backend cannot be reached.
    BackendUnavailable {
        /// A safe diagnostic.
        message: String,
    },
    /// The backend failed or holds corrupt data.
    BackendFailure {
        /// A safe diagnostic.
        message: String,
    },
}

/// What a storage error says.
pub enum StorageErrorView {
    /// The query itself is invalid.
    InvalidQuery(Seq<char>),
    /// The checkpoint cannot be used with this store.
    InvalidCheckpoint(Seq<char>),
    /// The cursor cannot be used with this store and checkpoint.
    InvalidCursor(Seq<char>),
    /// A different Event is stored under the same identifier.
    EventConflict(Seq<char>),
    /// The backend cannot be reached.
    BackendUnavailable(Seq<char>),
    /// The backend failed or holds corrupt data.
    BackendFailure(Seq<char>),
}

impl View for StorageError {
    type V = StorageErrorView;

    open spec fn view(&self) -> StorageErrorView {
        match *self {
            StorageError::InvalidQuery { reason } => StorageErrorView::InvalidQuery(reason@),
            StorageError::InvalidCheckpoint { reason } => StorageErrorView::InvalidCheckpoint(
                reason@,
            ),
            StorageError::InvalidCursor { reason } => StorageErrorView::InvalidCursor(reason@),
            StorageError::EventConflict { event_id } => StorageErrorView::EventConflict(event_id@),
            StorageError::BackendUnavailable { message } => StorageErrorView::BackendUnavailable(
                message@,
            ),
            StorageError::BackendFailure { message } => StorageErrorView::BackendFailure(message@),
        }
    }
}

/// Returns the error of a backend that cannot be reached.
pub fn unavailable(message: &str) -> (r: StorageError)
    ensures
        r@ == StorageErrorView::BackendUnavailable(message@),
{
    StorageError::BackendUnavailable { message: message.to_owned() }
}

/// Returns the error of a backend that failed or holds corrupt data.
pub fn failure(message: &str) -> (r: StorageError)
    ensures
        r@ == StorageErrorView::BackendFailure(message@),
{
    StorageError::BackendFailure { message: message.to_owned() }
}

/// How SQLite classifies an error, as far as the server tells errors apart.
#[derive(Clone, Copy, Debug, PartialEq, Eq, Structural)]
pub enum SqliteCode {
    /// Another connection holds the database.
    DatabaseBusy,
    /// A table in the database is locked.
    DatabaseLocked,
    /// Anything else.
    Other,
}

/// Why a command could not be queued.
#[derive(Clone, Copy, Debug, PartialEq, Eq, Structural)]
pub enum SendFault {
    /// The bounded queue is full.
    Full,
    /// The worker is gone.
    Closed,
}

/// The error of an operation of SQLite: contention is passing, anything else is a failure of the
/// operation.
pub open spec fn sqlite_failure(message: Seq<char>, code: SqliteCode) -> StorageErrorView {
    if code == SqliteCode::Other {
        StorageErrorView::BackendFailure(message)
    } else {
        StorageErrorView::BackendUnavailable("SQLite EventStore is busy"@)
    }
}

/// Maps an error of SQLite.
pub fn map_sqlite_error(message: &str, code: SqliteCode) -> (r: StorageError)
    ensures
        r@ == sqlite_failure(message@, code),
{
    match code {
        SqliteCode::DatabaseBusy | SqliteCode::DatabaseLocked => unavailable(
            "SQLite EventStore is busy",
        ),
        SqliteCode::Other => failure(message),
    }
}

/// Maps the failure to queue a command.
pub fn map_send_error(fault: SendFault) -> (r: StorageError)
    ensures
        r@ == StorageErrorView::BackendUnavailable(
            match fault {
                SendFault::Full => "SQLite command queue is full"@,
                SendFault::Closed => "SQLite worker is unavailable"@,
            },
        ),
{
    match fault {
        SendFault::Full => unavailable("SQLite command queue is full"),
        SendFault::Closed => unavailable("SQLite worker is unavailable"),
    }
}

/// Checks the size of the command queue before the worker starts.
pub fn check_queue_capacity(queue_capacity: usize) -> (r: Result<(), StorageError>)
    ensures
        match r {
            Ok(_) => queue_capacity > 0,
            Err(error) => queue_capacity == 0 && error@ == StorageErrorView::InvalidQuery(
                "SQLite command queue capacity must be greater than zero"@,
            ),
        },
{
    if queue_capacity == 0 {
        return Err(
            StorageError::InvalidQuery {
                reason: "SQLite command queue capacity must be greater than zero".to_owned(),
            },
        );
    }
    Ok(())
}

/// What is to be done about a metadata entry of the database.
#[derive(Clone, Copy, Debug, PartialEq, Eq, Structural)]
pub enum MetadataStep {
    /// The entry is in order.
    Keep,
    /// The entry is missing and is created.
    Create,
}

/// What the stored schema version means: a new database gets the supported one, and no other
/// version is opened.
pub open spec fn schema_verdict(stored: Option<Seq<char>>) -> Result<
    MetadataStep,
    StorageErrorView,
> {
    match stored {
        None => Ok(MetadataStep::Create),
        Some(text) => match signed_value(text) {
            None => Err(StorageErrorView::BackendFailure("SQLite schema version is malformed"@)),
            Some(version) => if version > SUPPORTED_SCHEMA_VERSION {
                Err(
                    StorageErrorView::BackendFailure(
                        "SQLite schema version is newer than this adapter"@,
                    ),
                )
            } else if version < SUPPORTED_SCHEMA_VERSION {
                Err(StorageErrorView::BackendFailure("SQLite schema migration is required"@))
            } else {
                Ok(MetadataStep::Keep)
            },
        },
    }
}

/// The view of a storage result whose success is taken as it is.
pub open spec fn storage_view<T>(r: Result<T, StorageError>) -> Result<T, StorageErrorView> {
    match r {
        Ok(value) => Ok(value),
        Err(error) => Err(error@),
    }
}

/// Checks the stored schema version.
pub fn check_schema_version(stored: &Option<String>) -> (r: Result<MetadataStep, StorageError>)
    ensures
        storage_view(r) == schema_verdict(optional_text(*stored)),
{
    match stored {
        None => Ok(MetadataStep::Create),
        Some(text) => {
            let value = chars_of(text.as_str());
            match parse_signed(value.as_slice()) {
                None => Err(failure("SQLite schema version is malformed")),
                Some(version) => if version > SUPPORTED_SCHEMA_VERSION {
                    Err(failure("SQLite schema version is newer than this adapter"))
                } else if version < SUPPORTED_SCHEMA_VERSION {
                    Err(failure("SQLite schema migration is required"))
                } else {
                    Ok(MetadataStep::Keep)
                },
            }
        },
    }
}

/// Checks the stored physical store identity: whether there is one, and whether it reads as an
/// identity.
pub fn check_physical_store_id(stored: Option<bool>) -> (r: Result<MetadataStep, StorageError>)
    ensures
        storage_view(r) == match stored {
            None => Ok::<MetadataStep, StorageErrorView>(MetadataStep::Create),
            Some(true) => Ok(MetadataStep::Keep),
            Some(false) => Err(
                StorageErrorView::BackendFailure("SQLite physical store identity is malformed"@),
            ),
        },
{
    match stored {
        None => Ok(MetadataStep::Create),
        Some(readable) => if readable {
            Ok(MetadataStep::Keep)
        } else {
            Err(failure("SQLite physical store identity is malformed"))
        },
    }
}

/// Checks what the physical integrity check of the database reported; none where it failed to run.
pub fn check_integrity_report(report: &Option<String>) -> (r: Result<(), StorageError>)
    ensures
        storage_view(r) == if optional_text(*report) == Some("ok"@) {
            Ok::<(), StorageErrorView>(())
        } else {
            Err(StorageErrorView::BackendFailure("SQLite physical integrity check failed"@))
        },
{
    match report {
        Some(text) => if same_text(text.as_str(), "ok") {
            Ok(())
        } else {
            Err(failure("SQLite physical integrity check failed"))
        },
        None => Err(failure("SQLite physical integrity check failed")),
    }
}

/// An Event: its identifiers and type, and its encoded time, payload and metadata.
#[derive(Debug, PartialEq, Eq)]
pub struct Event {
    /// The Event identifier.
    pub event_id: String,
    /// The Session identifier.
    pub session_id: String,
    /// The Actor identifier.
    pub actor_id: String,
    /// The identifier of the Action that caused the Event.
    pub action_id: String,
    /// The Event type.
    pub event_type: String,
    /// The encoded time of the Event.
    pub occurred_at: String,
    /// The encoded payload.
    pub payload: String,
    /// The encoded metadata.
    pub metadata: String,
}

/// The contents of [`Event`].
pub struct EventView {
    /// The Event identifier.
    pub event_id: Seq<char>,
    /// The Session identifier.
    pub session_id: Seq<char>,
    /// The Actor identifier.
    pub actor_id: Seq<char>,
    /// The identifier of the Action that caused the Event.
    pub action_id: Seq<char>,
    /// The Event type.
    pub event_type: Seq<char>,
    /// The encoded time of the Event.
    pub occurred_at: Seq<char>,
    /// The encoded payload.
    pub payload: Seq<char>,
    /// The encoded metadata.
    pub metadata: Seq<char>,
}

impl View for Event {
    type V = EventView;

    open spec fn view(&self) -> EventView {
        EventView {
            event_id: self.event_id@,
            session_id: self.session_id@,
            actor_id: self.actor_id@,
            action_id: self.action_id@,
            event_type: self.event_type@,
            occurred_at: self.occurred_at@,
            payload: self.payload@,
            metadata: self.metadata@,
        }
    }
}

/// An Event about to be appended, with its parts as far as they could be encoded.
#[derive(Debug)]
pub struct EventParts {
    /// The Event identifier.
    pub event_id: String,
    /// The Session identifier.
    pub session_id: String,
    /// The Actor identifier.
    pub actor_id: String,
    /// The identifier of the Action that caused the Event.
    pub action_id: String,
    /// The Event type.
    pub event_type: String,
    /// The encoded time, if it could be encoded.
    pub occurred_at: Option<String>,
    /// The encoded payload, if it could be encoded.
    pub payload: Option<String>,
    /// The encoded metadata, if it could be encoded.
    pub metadata: Option<String>,
}

/// The contents of [`EventParts`].
pub struct EventPartsView {
    /// The Event identifier.
    pub event_id: Seq<char>,
    /// The Session identifier.
    pub session_id: Seq<char>,
    /// The Actor identifier.
    pub actor_id: Seq<char>,
    /// The identifier of the Action that caused the Event.
    pub action_id: Seq<char>,
    /// The Event type.
    pub event_type: Seq<char>,
    /// The encoded time, if it could be encoded.
    pub occurred_at: Option<Seq<char>>,
    /// The encoded payload, if it could be encoded.
    pub payload: Option<Seq<char>>,
    /// The encoded metadata, if it could be encoded.
    pub metadata: Option<Seq<char>>,
}

impl View for EventParts {
    type V = EventPartsView;

    open spec fn view(&self) -> EventPartsView {
        EventPartsView {
            event_id: self.event_id@,
            session_id: self.session_id@,
            actor_id: self.actor_id@,
            action_id: self.action_id@,
            event_type: self.event_type@,
            occurred_at: optional_text(self.occurred_at),
            payload: optional_text(self.payload),
            metadata: optional_text(self.metadata),
        }
    }
}

/// A row of the events table, with its texts as far as they can be read.
#[derive(Debug)]
pub struct StoredRow {
    /// The sequence number under which the Event was appended.
    pub append_sequence: i64,
    /// The Event identifier, if the stored text is one.
    pub event_id: Option<String>,
    /// The Session identifier, if the stored text is one.
    pub session_id: Option<String>,
    /// The Actor identifier, if the stored text is one.
    pub actor_id: Option<String>,
    /// The Action identifier, if the stored text is one.
    pub action_id: Option<String>,
    /// The encoded time, if the stored text encodes one.
    pub occurred_at: Option<String>,
    /// The Event type.
    pub event_type: String,
    /// The encoded payload, if the stored text encodes one.
    pub payload: Option<String>,
    /// The encoded metadata, if the stored text encodes one.
    pub metadata: Option<String>,
}

/// The contents of [`StoredRow`].
pub struct StoredRowView {
    /// The sequence number under which the Event was appended.
    pub append_sequence: int,
    /// The Event identifier, if the stored text is one.
    pub event_id: Option<Seq<char>>,
    /// The Session identifier, if the stored text is one.
    pub session_id: Option<Seq<char>>,
    /// The Actor identifier, if the stored text is one.
    pub actor_id: Option<Seq<char>>,
    /// The Action identifier, if the stored text is one.
    pub action_id: Option<Seq<char>>,
    /// The encoded time, if the stored text encodes one.
    pub occurred_at: Option<Seq<char>>,
    /// The Event type.
    pub event_type: Seq<char>,
    /// The encoded payload, if the stored text encodes one.
    pub payload: Option<Seq<char>>,
    /// The encoded metadata, if the stored text encodes one.
    pub metadata: Option<Seq<char>>,
}

impl View for StoredRow {
    type V = StoredRowView;

    open spec fn view(&self) -> StoredRowView {
        StoredRowView {
            append_sequence: self.append_sequence as int,
            event_id: optional_text(self.event_id),
            session_id: optional_text(self.session_id),
            actor_id: optional_text(self.actor_id),
            action_id: optional_text(self.action_id),
            occurred_at: optional_text(self.occurred_at),
            event_type: self.event_type@,
            payload: optional_text(self.payload),
            metadata: optional_text(self.metadata),
        }
    }
}

impl Event {
    /// Returns whether both Events are the same in every part.
    pub fn same(&self, other: &Event) -> (r: bool)
        ensures
            r == (self@ == other@),
    {
        same_text(self.event_id.as_str(), other.event_id.as_str()) && same_text(
            self.session_id.as_str(),
            other.session_id.as_str(),
        ) && same_text(self.actor_id.as_str(), other.actor_id.as_str()) && same_text(
            self.action_id.as_str(),
            other.action_id.as_str(),
        ) && same_text(self.event_type.as_str(), other.event_type.as_str()) && same_text(
            self.occurred_at.as_str(),
            other.occurred_at.as_str(),
        ) && same_text(self.payload.as_str(), other.payload.as_str()) && same_text(
            self.metadata.as_str(),
            other.metadata.as_str(),
        )
    }

    /// Returns a copy of the Event.
    pub fn copy(&self) -> (r: Event)
        ensures
            r@ == self@,
    {
        Event {
            event_id: self.event_id.clone(),
            session_id: self.session_id.clone(),
            actor_id: self.actor_id.clone(),
            action_id: self.action_id.clone(),
            event_type: self.event_type.clone(),
            occurred_at: self.occurred_at.clone(),
            payload: self.payload.clone(),
            metadata: self.metadata.clone(),
        }
    }
}

/// The Event that encoded parts make, or the first part that could not be encoded.
pub open spec fn encoded_event(parts: EventPartsView) -> Result<EventView, StorageErrorView> {
    if parts.payload is None {
        Err(StorageErrorView::BackendFailure("event payload serialization failed"@))
    } else if parts.metadata is None {
        Err(StorageErrorView::BackendFailure("event metadata serialization failed"@))
    } else if parts.occurred_at is None {
        Err(StorageErrorView::BackendFailure("event timestamp serialization failed"@))
    } else {
        Ok(
            EventView {
                event_id: parts.event_id,
                session_id: parts.session_id,
                actor_id: parts.actor_id,
                action_id: parts.action_id,
                event_type: parts.event_type,
                occurred_at: parts.occurred_at->0,
                payload: parts.payload->0,
                metadata: parts.metadata->0,
            },
        )
    }
}

/// Makes an Event of its encoded parts.
pub fn encode_event(parts: EventParts) -> (r: Result<Event, StorageError>)
    ensures
        match r {
            Ok(event) => encoded_event(parts@) == Ok::<EventView, StorageErrorView>(event@),
            Err(error) => encoded_event(parts@) == Err::<EventView, StorageErrorView>(error@),
        },
{
    let payload = match parts.payload {
        Some(text) => text,
        None => {
            return Err(failure("event payload serialization failed"));
        },
    };
    let metadata = match parts.metadata {
        Some(text) => text,
        None => {
            return Err(failure("event metadata serialization failed"));
        },
    };
    let occurred_at = match parts.occurred_at {
        Some(text) => text,
        None => {
            return Err(failure("event timestamp serialization failed"));
        },
    };
    Ok(
        Event {
            event_id: parts.event_id,
            session_id: parts.session_id,
            actor_id: parts.actor_id,
            action_id: parts.action_id,
            event_type: parts.event_type,
            occurred_at,
            payload,
            metadata,
        },
    )
}

/// What is wrong with a row that cannot be decoded.
pub open spec fn row_problem(row: StoredRowView) -> Option<Seq<char>> {
    if row.append_sequence < 0 {
        Some("SQLite EventStore append sequence is invalid"@)
    } else if row.event_id is None {
        Some("SQLite EventStore EventId is invalid"@)
    } else if row.session_id is None {
        Some("SQLite EventStore SessionId is invalid"@)
    } else if row.actor_id is None {
        Some("SQLite EventStore ActorId is invalid"@)
    } else if row.action_id is None {
        Some("SQLite EventStore ActionId is invalid"@)
    } else if row.occurred_at is None {
        Some("SQLite EventStore timestamp is invalid"@)
    } else if row.payload is None {
        Some("SQLite EventStore payload is invalid"@)
    } else if row.metadata is None {
        Some("SQLite EventStore metadata is invalid"@)
    } else {
        None
    }
}

/// The Event of a row that can be decoded.
pub open spec fn row_event(row: StoredRowView) -> EventView {
    EventView {
        event_id: row.event_id->0,
        session_id: row.session_id->0,
        actor_id: row.actor_id->0,
        action_id: row.action_id->0,
        event_type: row.event_type,
        occurred_at: row.occurred_at->0,
        payload: row.payload->0,
        metadata: row.metadata->0,
    }
}

/// Decodes a row into its sequence number and its Event.
pub fn decode_row(row: StoredRow) -> (r: Result<(u64, Event), StorageError>)
    ensures
        match r {
            Ok((sequence, event)) => row_problem(row@) is None && sequence == row@.append_sequence
                && event@ == row_event(row@),
            Err(error) => row_problem(row@) is Some && error@ == StorageErrorView::BackendFailure(
                row_problem(row@)->0,
            ),
        },
{
    if row.append_sequence < 0 {
        return Err(failure("SQLite EventStore append sequence is invalid"));
    }
    let sequence: u64 = row.append_sequence as u64;
    let event_id = match row.event_id {
        Some(text) => text,
        None => {
            return Err(failure("SQLite EventStore EventId is invalid"));
        },
    };
    let session_id = match row.session_id {
        Some(text) => text,
        None => {
            return Err(failure("SQLite EventStore SessionId is invalid"));
        },
    };
    let actor_id = match row.actor_id {
        Some(text) => text,
        None => {
            return Err(failure("SQLite EventStore ActorId is invalid"));
        },
    };
    let action_id = match row.action_id {
        Some(text) => text,
        None => {
            return Err(failure("SQLite EventStore ActionId is invalid"));
        },
    };
    let occurred_at = match row.occurred_at {
        Some(text) => text,
        None => {
            return Err(failure("SQLite EventStore timestamp is invalid"));
        },
    };
    let payload = match row.payload {
        Some(text) => text,
        None => {
            return Err(failure("SQLite EventStore payload is invalid"));
        },
    };
    let metadata = match row.metadata {
        Some(text) => text,
        None => {
            return Err(failure("SQLite EventStore metadata is invalid"));
        },
    };
    let event_type = row.event_type;
    Ok(
        (
            sequence,
            Event {
                event_id,
                session_id,
                actor_id,
                action_id,
                event_type,
                occurred_at,
                payload,
                metadata,
            },
        ),
    )
}

/// The rows of a read, none for one that could not be read.
pub open spec fn rows_view(rows: Seq<Option<StoredRow>>) -> Seq<Option<StoredRowView>> {
    Seq::new(
        rows.len(),
        |i: int|
            match rows[i] {
                Some(row) => Some(row@),
                None => None,
            },
    )
}

/// What is wrong with the row at `index`, where the log is to be contiguous.
pub open spec fn log_row_problem(row: Option<StoredRowView>, index: int) -> Option<Seq<char>> {
    match row {
        None => Some("SQLite EventStore row read failed"@),
        Some(row) => if row.append_sequence != index {
            Some("SQLite EventStore append sequence is not contiguous"@)
        } else if row_problem(row) is Some {
            row_problem(row)
        } else if index == i64::MAX {
            Some("SQLite EventStore append sequence overflow"@)
        } else {
            None
        },
    }
}

/// What is wrong with the stored log from the row at `index` on: the first problem counts.
pub open spec fn log_problem(rows: Seq<Option<StoredRowView>>, index: int) -> Option<Seq<char>>
    decreases rows.len() - index,
{
    if index < 0 || index >= rows.len() {
        None
    } else if log_row_problem(rows[index], index) is Some {
        log_row_problem(rows[index], index)
    } else {
        log_problem(rows, index + 1)
    }
}

/// Whether every row from the one at `index` on was read, has the sequence number of its place, and
/// can be decoded.
pub open spec fn is_sound_log(rows: Seq<Option<StoredRowView>>, index: int) -> bool {
    forall|i: int|
        index <= i < rows.len() ==> (#[trigger] rows[i] matches Some(row) && row.append_sequence
            == i && row_problem(row) is None)
}

/// Where nothing is wrong with a log, every row of it was read, has the sequence number of its
/// place, and can be decoded; and where that holds of a log whose sequence numbers can all be told,
/// nothing is wrong with it.
pub proof fn law_sound_log_is_contiguous_and_decodable(rows: Seq<Option<StoredRowView>>, index: int)
    requires
        0 <= index,
    ensures
        log_problem(rows, index) is None ==> is_sound_log(rows, index),
        is_sound_log(rows, index) && rows.len() <= i64::MAX ==> log_problem(rows, index) is None,
    decreases rows.len() - index,
{
    if index < rows.len() {
        law_sound_log_is_contiguous_and_decodable(rows, index + 1);
    }
}

/// Checks that a row can be decoded.
fn check_row(row: &StoredRow) -> (r: Result<(), StorageError>)
    ensures
        match r {
            Ok(_) => row_problem(row@) is None,
            Err(error) => row_problem(row@) is Some && error@ == StorageErrorView::BackendFailure(
                row_problem(row@)->0,
            ),
        },
{
    if row.append_sequence < 0 {
        return Err(failure("SQLite EventStore append sequence is invalid"));
    }
    if row.event_id.is_none() {
        return Err(failure("SQLite EventStore EventId is invalid"));
    }
    if row.session_id.is_none() {
        return Err(failure("SQLite EventStore SessionId is invalid"));
    }
    if row.actor_id.is_none() {
        return Err(failure("SQLite EventStore ActorId is invalid"));
    }
    if row.action_id.is_none() {
        return Err(failure("SQLite EventStore ActionId is invalid"));
    }
    if row.occurred_at.is_none() {
        return Err(failure("SQLite EventStore timestamp is invalid"));
    }
    if row.payload.is_none() {
        return Err(failure("SQLite EventStore payload is invalid"));
    }
    if row.metadata.is_none() {
        return Err(failure("SQLite EventStore metadata is invalid"));
    }
    Ok(())
}

/// Checks the whole stored log in sequence order: it has to be contiguous and decodable.
pub fn verify_all_events(rows: &[Option<StoredRow>]) -> (r: Result<(), StorageError>)
    ensures
        match r {
            Ok(_) => log_problem(rows_view(rows@), 0) is None,
            Err(error) => log_problem(rows_view(rows@), 0) is Some && error@
                == StorageErrorView::BackendFailure(log_problem(rows_view(rows@), 0)->0),
        },
{
    let ghost all = rows_view(rows@);
    let mut expected: i64 = 0;
    let mut i: usize = 0;
    while i < rows.len()
        invariant
            i <= rows@.len(),
            expected == i,
            all == rows_view(rows@),
            log_problem(all, 0) == log_problem(all, i as int),
        decreases rows@.len() - i,
    {
        assert(all[i as int] == match rows@[i as int] {
            Some(row) => Some(row@),
            None => None,
        });
        let row = match &rows[i] {
            Some(row) => row,
            None => {
                return Err(failure("SQLite EventStore row read failed"));
            },
        };
        if row.append_sequence != expected {
            return Err(failure("SQLite EventStore append sequence is not contiguous"));
        }
        match check_row(row) {
            Ok(_) => {},
            Err(error) => {
                return Err(error);
            },
        }
        expected = match expected.checked_add(1) {
            Some(next) => next,
            None => {
                return Err(failure("SQLite EventStore append sequence overflow"));
            },
        };
        i = i + 1;
    }
    Ok(())
}

/// The number of Events in a log whose highest sequence number is `max`.
pub open spec fn count_verdict(max: Option<i64>) -> Result<u64, StorageErrorView> {
    match max {
        None => Ok(0),
        Some(value) => if value < 0 {
            Err(
                StorageErrorView::BackendFailure("SQLite EventStore append sequence is negative"@),
            )
        } else {
            Ok((value + 1) as u64)
        },
    }
}

/// Returns the number of Events in a log whose highest sequence number is `max`.
pub fn current_count(max: Option<i64>) -> (r: Result<u64, StorageError>)
    ensures
        storage_view(r) == count_verdict(max),
{
    match max {
        None => Ok(0),
        Some(value) => if value < 0 {
            Err(failure("SQLite EventStore append sequence is negative"))
        } else {
            Ok(value as u64 + 1)
        },
    }
}

/// An Event and the position right behind it, which is what its cursor tells.
#[derive(Debug, PartialEq, Eq)]
pub struct StoredEvent {
    /// The number of Events up to and including this one.
    pub position: u64,
    /// The Event.
    pub event: Event,
}

impl View for StoredEvent {
    type V = (int, EventView);

    open spec fn view(&self) -> (int, EventView) {
        (self.position as int, self.event@)
    }
}

/// Returns a stored Event with the position right behind it.
pub fn stored_event(sequence: u64, event: Event) -> (r: Result<StoredEvent, StorageError>)
    ensures
        match r {
            Ok(stored) => sequence < u64::MAX && stored@ == (sequence + 1, event@),
            Err(error) => sequence == u64::MAX && error@ == StorageErrorView::BackendFailure(
                "SQLite EventStore cursor overflow"@,
            ),
        },
{
    match sequence.checked_add(1) {
        Some(position) => Ok(StoredEvent { position, event }),
        None => Err(failure("SQLite EventStore cursor overflow")),
    }
}

/// What appending an Event does.
#[derive(Debug, PartialEq, Eq)]
pub enum AppendStep {
    /// The very same Event is stored already; its place is returned and nothing is written.
    AlreadyStored(StoredEvent),
    /// The Event is new: it is written under the next sequence number.
    Insert,
}

/// What appending `event` does where `existing` is the row with its identifier.
pub open spec fn append_verdict(event: EventView, existing: Option<StoredRowView>) -> Result<
    Option<(int, EventView)>,
    StorageErrorView,
> {
    match existing {
        None => Ok(None),
        Some(row) => if row_problem(row) is Some {
            Err(StorageErrorView::BackendFailure(row_problem(row)->0))
        } else if row_event(row) != event {
            Err(StorageErrorView::EventConflict(event.event_id))
        } else {
            Ok(Some((row.append_sequence + 1, event)))
        },
    }
}

/// Decides what appending an Event does, from the row that is stored under its identifier.
///
/// Appending the same Event again is answered with its place. A different Event under a stored
/// identifier is a conflict.
pub fn append_event(event: &Event, existing: Option<StoredRow>) -> (r: Result<
    AppendStep,
    StorageError,
>)
    ensures
        match r {
            Ok(AppendStep::AlreadyStored(stored)) => append_verdict(
                event@,
                match existing {
                    Some(row) => Some(row@),
                    None => None,
                },
            ) == Ok::<Option<(int, EventView)>, StorageErrorView>(Some(stored@)),
            Ok(AppendStep::Insert) => existing is None,
            Err(error) => append_verdict(
                event@,
                match existing {
                    Some(row) => Some(row@),
                    None => None,
                },
            ) == Err::<Option<(int, EventView)>, StorageErrorView>(error@),
        },
{
    let row = match existing {
        None => {
            return Ok(AppendStep::Insert);
        },
        Some(row) => row,
    };
    let (sequence, stored) = match decode_row(row) {
        Ok(decoded) => decoded,
        Err(error) => {
            return Err(error);
        },
    };
    if !stored.same(event) {
        return Err(StorageError::EventConflict { event_id: event.event_id.clone() });
    }
    match stored_event(sequence, stored) {
        Ok(stored) => Ok(AppendStep::AlreadyStored(stored)),
        Err(error) => Err(error),
    }
}

/// The sequence number under which the next Event is written.
pub open spec fn next_sequence(max: Option<i64>) -> Result<i64, StorageErrorView> {
    match count_verdict(max) {
        Err(error) => Err(error),
        Ok(count) => if count > i64::MAX {
            Err(StorageErrorView::BackendFailure("SQLite EventStore append sequence overflow"@))
        } else {
            Ok(count as i64)
        },
    }
}

/// Returns the sequence number under which the next Event is written.
pub fn append_sequence(max: Option<i64>) -> (r: Result<i64, StorageError>)
    ensures
        storage_view(r) == next_sequence(max),
{
    match current_count(max) {
        Err(error) => Err(error),
        Ok(count) => if count > i64::MAX as u64 {
            Err(failure("SQLite EventStore append sequence overflow"))
        } else {
            Ok(count as i64)
        },
    }
}

/// The row that is written for an Event.
pub open spec fn encoded_row(sequence: int, event: EventView) -> StoredRowView {
    StoredRowView {
        append_sequence: sequence,
        event_id: Some(event.event_id),
        session_id: Some(event.session_id),
        actor_id: Some(event.actor_id),
        action_id: Some(event.action_id),
        occurred_at: Some(event.occurred_at),
        event_type: event.event_type,
        payload: Some(event.payload),
        metadata: Some(event.metadata),
    }
}

/// Returns the row that is written for an Event.
pub fn encode_row(sequence: i64, event: &Event) -> (r: StoredRow)
    ensures
        r@ == encoded_row(sequence as int, event@),
{
    StoredRow {
        append_sequence: sequence,
        event_id: Some(event.event_id.clone()),
        session_id: Some(event.session_id.clone()),
        actor_id: Some(event.actor_id.clone()),
        action_id: Some(event.action_id.clone()),
        occurred_at: Some(event.occurred_at.clone()),
        event_type: event.event_type.clone(),
        payload: Some(event.payload.clone()),
        metadata: Some(event.metadata.clone()),
    }
}

/// Returns the Event stored under an identifier, from its row.
pub fn get_event(row: Option<StoredRow>) -> (r: Result<Option<StoredEvent>, StorageError>)
    ensures
        match r {
            Ok(None) => row is None,
            Ok(Some(stored)) => row is Some && row_problem(row->0@) is None && stored@ == (
                row->0@.append_sequence + 1,
                row_event(row->0@),
            ),
            Err(error) => row is Some && row_problem(row->0@) is Some && error@
                == StorageErrorView::BackendFailure(row_problem(row->0@)->0),
        },
{
    match row {
        None => Ok(None),
        Some(row) => match decode_row(row) {
            Err(error) => Err(error),
            Ok((sequence, event)) => match stored_event(sequence, event) {
                Ok(stored) => Ok(Some(stored)),
                Err(error) => Err(error),
            },
        },
    }
}

/// Every part of an Event stands in the column of that name, and is read back from it.
pub proof fn law_each_part_has_its_column(sequence: int, event: EventView, row: StoredRowView)
    ensures
        encoded_row(sequence, event) == (StoredRowView {
            append_sequence: sequence,
            event_id: Some(event.event_id),
            session_id: Some(event.session_id),
            actor_id: Some(event.actor_id),
            action_id: Some(event.action_id),
            occurred_at: Some(event.occurred_at),
            event_type: event.event_type,
            payload: Some(event.payload),
            metadata: Some(event.metadata),
        }),
        row_problem(row) is None <==> {
            &&& row.append_sequence >= 0
            &&& row.event_id is Some
            &&& row.session_id is Some
            &&& row.actor_id is Some
            &&& row.action_id is Some
            &&& row.occurred_at is Some
            &&& row.payload is Some
            &&& row.metadata is Some
        },
        row_problem(row) is None ==> encoded_row(row.append_sequence, row_event(row)) == row,
        sequence >= 0 ==> row_problem(encoded_row(sequence, event)) is None,
        row_event(encoded_row(sequence, event)) == event,
{
}

/// Encoding an Event takes its parts as they are, and fails exactly where one of them could not be
/// encoded.
pub proof fn law_encoding_keeps_every_part(parts: EventPartsView)
    ensures
        encoded_event(parts) is Ok <==> parts.payload is Some && parts.metadata is Some
            && parts.occurred_at is Some,
        encoded_event(parts) matches Ok(event) ==> {
            &&& event.event_id == parts.event_id
            &&& event.session_id == parts.session_id
            &&& event.actor_id == parts.actor_id
            &&& event.action_id == parts.action_id
            &&& event.event_type == parts.event_type
            &&& Some(event.occurred_at) == parts.occurred_at
            &&& Some(event.payload) == parts.payload
            &&& Some(event.metadata) == parts.metadata
        },
        encoded_event(parts) is Err ==> (encoded_event(parts)->Err_0 is BackendFailure),
{
}

/// Only a database of schema version 1, or a new one, is opened.
pub proof fn law_only_the_supported_schema_is_opened(version: int, text: Seq<char>)
    requires
        0 <= version,
    ensures
        schema_verdict(None) == Ok::<MetadataStep, StorageErrorView>(MetadataStep::Create),
        schema_verdict(Some(decimal(version))) is Ok <==> version == 1,
        schema_verdict(Some(decimal(1))) == Ok::<MetadataStep, StorageErrorView>(
            MetadataStep::Keep,
        ),
        schema_verdict(Some(seq!['-'] + decimal(version))) is Err,
        schema_verdict(Some(text)) is Ok ==> signed_value(text) == Some(1int),
{
    crate::text::law_signed_numbers_are_decimal(version);
    crate::text::law_signed_numbers_are_decimal(1);
}

/// The number of Events is one more than the highest sequence number, and the next Event gets the
/// number right behind it, as long as there is one.
pub proof fn law_sequence_numbers_count_up(max: i64)
    requires
        0 <= max,
    ensures
        count_verdict(None) == Ok::<u64, StorageErrorView>(0),
        count_verdict(Some(max)) matches Ok(count) && count == max + 1,
        next_sequence(None) == Ok::<i64, StorageErrorView>(0),
        max < i64::MAX ==> (next_sequence(Some(max)) matches Ok(next) && next == max + 1),
        next_sequence(Some(i64::MAX)) is Err,
{
}

/// Appending an Event answers with the stored one only where every part of it is the same, and is
/// a conflict where any part differs; it is written only where nothing is stored under its
/// identifier.
pub proof fn law_append_compares_every_part(event: EventView, row: StoredRowView)
    requires
        row.append_sequence >= 0,
        row.event_id is Some,
        row.session_id is Some,
        row.actor_id is Some,
        row.action_id is Some,
        row.occurred_at is Some,
        row.payload is Some,
        row.metadata is Some,
    ensures
        append_verdict(event, None) == Ok::<Option<(int, EventView)>, StorageErrorView>(None),
        append_verdict(event, Some(row)) == if row.event_id == Some(event.event_id)
            && row.session_id == Some(event.session_id) && row.actor_id == Some(event.actor_id)
            && row.action_id == Some(event.action_id) && row.event_type == event.event_type
            && row.occurred_at == Some(event.occurred_at) && row.payload == Some(event.payload)
            && row.metadata == Some(event.metadata) {
            Ok::<Option<(int, EventView)>, StorageErrorView>(
                Some((row.append_sequence + 1, event)),
            )
        } else {
            Err(StorageErrorView::EventConflict(event.event_id))
        },
{
}

/// Contention is passing; anything else is a failure of the operation.
pub proof fn law_contention_is_passing(message: Seq<char>)
    ensures
        sqlite_failure(message, SqliteCode::DatabaseBusy) is BackendUnavailable,
        sqlite_failure(message, SqliteCode::DatabaseLocked) is BackendUnavailable,
        sqlite_failure(message, SqliteCode::Other) == StorageErrorView::BackendFailure(message),
{
}

/// A row with one defect is told by that defect: the column that could not be read, or the place
/// that it should not have.
pub proof fn law_defects_of_a_row_are_named(
    row: StoredRowView,
)
    requires
        row_problem(row) is None,
    ensures
        row_problem(StoredRowView { append_sequence: -1, ..row }) == Some(
            "SQLite EventStore append sequence is invalid"@,
        ),
        row_problem(StoredRowView { event_id: None, ..row }) == Some(
            "SQLite EventStore EventId is invalid"@,
        ),
        row_problem(StoredRowView { session_id: None, ..row }) == Some(
            "SQLite EventStore SessionId is invalid"@,
        ),
        row_problem(StoredRowView { actor_id: None, ..row }) == Some(
            "SQLite EventStore ActorId is invalid"@,
        ),
        row_problem(StoredRowView { action_id: None, ..row }) == Some(
            "SQLite EventStore ActionId is invalid"@,
        ),
        row_problem(StoredRowView { occurred_at: None, ..row }) == Some(
            "SQLite EventStore timestamp is invalid"@,
        ),
        row_problem(StoredRowView { payload: None, ..row }) == Some(
            "SQLite EventStore payload is invalid"@,
        ),
        row_problem(StoredRowView { metadata: None, ..row }) == Some(
            "SQLite EventStore metadata is invalid"@,
        ),
        log_row_problem(None, row.append_sequence) == Some("SQLite EventStore row read failed"@),
        log_row_problem(Some(row), row.append_sequence + 1) == Some(
            "SQLite EventStore append sequence is not contiguous"@,
        ),
{
}

/// A stored schema version that is not supported is told as malformed, newer or older.
pub proof fn law_refused_schemas_are_named(
    version: int,
)
    requires
        0 <= version <= i64::MAX,
    ensures
        schema_verdict(Some(Seq::empty())) == Err::<MetadataStep, StorageErrorView>(
            StorageErrorView::BackendFailure("SQLite schema version is malformed"@),
        ),
        version > 1 ==> schema_verdict(Some(decimal(version))) == Err::<
            MetadataStep,
            StorageErrorView,
        >(StorageErrorView::BackendFailure("SQLite schema version is newer than this adapter"@)),
        version < 1 ==> schema_verdict(Some(decimal(version))) == Err::<
            MetadataStep,
            StorageErrorView,
        >(StorageErrorView::BackendFailure("SQLite schema migration is required"@)),
{
    crate::text::law_signed_numbers_are_decimal(version);
}

/// An Event of which one part could not be encoded is told by that part.
pub proof fn law_unencodable_parts_are_named(
    parts: EventPartsView,
)
    requires
        encoded_event(parts) is Ok,
    ensures
        encoded_event(EventPartsView { payload: None, ..parts })
            == Err::<EventView, StorageErrorView>(
            StorageErrorView::BackendFailure("event payload serialization failed"@),
        ),
        encoded_event(EventPartsView { metadata: None, ..parts })
            == Err::<EventView, StorageErrorView>(
            StorageErrorView::BackendFailure("event metadata serialization failed"@),
        ),
        encoded_event(EventPartsView { occurred_at: None, ..parts })
            == Err::<EventView, StorageErrorView>(
            StorageErrorView::BackendFailure("event timestamp serialization failed"@),
        ),
{
}

/// A list of rows, none for one that could not be read, shows what it holds, in its order.
pub proof fn law_views_of_rows(rows: Seq<Option<StoredRow>>, row: StoredRow)
    ensures
        rows_view(rows).len() == rows.len(),
        forall|i: int|
            0 <= i < rows.len() ==> #[trigger] rows_view(rows)[i] == match rows[i] {
                Some(row) => Some(row@),
                None => None,
            },
        row@.append_sequence == row.append_sequence,
        row@.event_id == optional_text(row.event_id),
        row@.session_id == optional_text(row.session_id),
        row@.actor_id == optional_text(row.actor_id),
        row@.action_id == optional_text(row.action_id),
        row@.occurred_at == optional_text(row.occurred_at),
        row@.event_type == row.event_type@,
        row@.payload == optional_text(row.payload),
        row@.metadata == optional_text(row.metadata),
{
}

} // verus!
