//! Canvas history Query with stable EventStore replay boundaries.
//!
//! A Query is driven by asking [`CanvasHistoryQueryHandler::execute`] again and again, each time
//! with one more fact, until it names the answer.

use vstd::prelude::*;

use crate::event_store::{Event, EventView, StorageError, StorageErrorView};
use crate::query::QueryHandlerError;
use crate::text::{optional_text, same_text};

verus! {

/// Protocol 0.2 Query type for one bounded Canvas history page.
pub const CANVAS_HISTORY_PAGE_QUERY_TYPE: &'static str = "canvas.history.page";

/// Default number of candidate stored Canvas events scanned by one Query.
pub const DEFAULT_HISTORY_STORE_SCAN_LIMIT: usize = 64;

/// Hard deployment limit for one bounded history Store query.
pub const MAX_HISTORY_STORE_SCAN_LIMIT: usize = 256;

/// Failure returned by the Canvas history read authorization port.
#[derive(Clone, Copy, Debug, PartialEq, Eq, Structural)]
#[non_exhaustive]
pub enum CanvasHistoryReadAuthorizationError {
    /// The actor cannot read the resolved Canvas Session.
    Unauthorized,
    /// The authorization backend is temporarily unavailable.
    Unavailable,
    /// The authorization backend failed unexpectedly.
    Internal,
}

impl CanvasHistoryReadAuthorizationError {
    /// The failure in words.
    pub open spec fn spec_message(self) -> Seq<char> {
        match self {
            CanvasHistoryReadAuthorizationError::Unauthorized =>
            "Canvas history read is unauthorized"@,
            CanvasHistoryReadAuthorizationError::Unavailable =>
            "Canvas history authorization is unavailable"@,
            CanvasHistoryReadAuthorizationError::Internal => "Canvas history authorization failed"@,
        }
    }

    /// Returns the failure in words.
    pub fn message(&self) -> (r: String)
        ensures
            r@ == self.spec_message(),
    {
        match self {
            CanvasHistoryReadAuthorizationError::Unauthorized =>
            "Canvas history read is unauthorized".to_owned(),
            CanvasHistoryReadAuthorizationError::Unavailable =>
            "Canvas history authorization is unavailable".to_owned(),
            CanvasHistoryReadAuthorizationError::Internal =>
            "Canvas history authorization failed".to_owned(),
        }
    }
}

/// Safe production placeholder that rejects every Canvas history read.
#[derive(Clone, Copy, Debug, Default)]
pub struct RejectAllCanvasHistoryReadAuthorizer;

impl RejectAllCanvasHistoryReadAuthorizer {
    /// Rejects the read of any Session.
    pub fn authorize_session_read(&self, session_id: &str) -> (r: Result<
        (),
        CanvasHistoryReadAuthorizationError,
    >)
        ensures
            r == Err::<(), CanvasHistoryReadAuthorizationError>(
                CanvasHistoryReadAuthorizationError::Unauthorized,
            ),
    {
        Err(CanvasHistoryReadAuthorizationError::Unauthorized)
    }
}

/// Development authorizer scoped to exactly one configured Session.
#[derive(Debug)]
pub struct DevelopmentCanvasHistoryReadAuthorizer {
    session_id: String,
}

impl View for DevelopmentCanvasHistoryReadAuthorizer {
    type V = Seq<char>;

    closed spec fn view(&self) -> Seq<char> {
        self.session_id@
    }
}

impl DevelopmentCanvasHistoryReadAuthorizer {
    /// Creates an authorizer for one Development Session.
    pub fn new(session_id: String) -> (r: DevelopmentCanvasHistoryReadAuthorizer)
        ensures
            r@ == session_id@,
    {
        DevelopmentCanvasHistoryReadAuthorizer { session_id }
    }

    /// Authorizes the read of the configured Session, and of no other.
    pub fn authorize_session_read(&self, session_id: &str) -> (r: Result<
        (),
        CanvasHistoryReadAuthorizationError,
    >)
        ensures
            match r {
                Ok(_) => session_id@ == self@,
                Err(error) => session_id@ != self@ && error
                    == CanvasHistoryReadAuthorizationError::Unauthorized,
            },
    {
        if same_text(session_id, self.session_id.as_str()) {
            Ok(())
        } else {
            Err(CanvasHistoryReadAuthorizationError::Unauthorized)
        }
    }
}

/// The failure of a Query whose read was not authorized.
pub open spec fn history_authorization_failure(
    error: CanvasHistoryReadAuthorizationError,
) -> QueryHandlerError {
    match error {
        CanvasHistoryReadAuthorizationError::Unauthorized => QueryHandlerError::Unauthorized,
        CanvasHistoryReadAuthorizationError::Unavailable => QueryHandlerError::Unavailable,
        CanvasHistoryReadAuthorizationError::Internal => QueryHandlerError::Internal,
    }
}

/// Maps a failure of the Canvas history read authorization port.
pub fn map_authorization_error(error: CanvasHistoryReadAuthorizationError) -> (r: QueryHandlerError)
    ensures
        r == history_authorization_failure(error),
{
    match error {
        CanvasHistoryReadAuthorizationError::Unauthorized => QueryHandlerError::Unauthorized,
        CanvasHistoryReadAuthorizationError::Unavailable => QueryHandlerError::Unavailable,
        CanvasHistoryReadAuthorizationError::Internal => QueryHandlerError::Internal,
    }
}

/// The failure of a Query whose checkpoint could not be captured.
pub open spec fn capture_failure(error: StorageErrorView) -> QueryHandlerError {
    match error {
        StorageErrorView::BackendUnavailable(_) => QueryHandlerError::Unavailable,
        _ => QueryHandlerError::Internal,
    }
}

/// Maps a failure to capture a checkpoint.
pub fn map_capture_error(error: &StorageError) -> (r: QueryHandlerError)
    ensures
        r == capture_failure(error@),
{
    match error {
        StorageError::BackendUnavailable { .. } => QueryHandlerError::Unavailable,
        _ => QueryHandlerError::Internal,
    }
}

/// The failure of a Query whose Events could not be read: a bad bound is the client's fault.
pub open spec fn query_failure(error: StorageErrorView) -> QueryHandlerError {
    match error {
        StorageErrorView::InvalidQuery(_) => QueryHandlerError::InvalidQuery,
        StorageErrorView::InvalidCursor(_) => QueryHandlerError::InvalidQuery,
        StorageErrorView::InvalidCheckpoint(_) => QueryHandlerError::InvalidQuery,
        StorageErrorView::BackendUnavailable(_) => QueryHandlerError::Unavailable,
        _ => QueryHandlerError::Internal,
    }
}

/// Maps a failure to read Events.
pub fn map_query_error(error: &StorageError) -> (r: QueryHandlerError)
    ensures
        r == query_failure(error@),
{
    match error {
        StorageError::InvalidQuery { .. } => QueryHandlerError::InvalidQuery,
        StorageError::InvalidCursor { .. } => QueryHandlerError::InvalidQuery,
        StorageError::InvalidCheckpoint { .. } => QueryHandlerError::InvalidQuery,
        StorageError::BackendUnavailable { .. } => QueryHandlerError::Unavailable,
        _ => QueryHandlerError::Internal,
    }
}

/// Explicit representation of an authoritative Event returned by history.
#[derive(Debug, PartialEq, Eq)]
pub struct HistoryEventDto {
    event: Event,
}

impl View for HistoryEventDto {
    type V = EventView;

    closed spec fn view(&self) -> EventView {
        self.event@
    }
}

impl HistoryEventDto {
    /// Creates the representation of an Event.
    pub fn from_event(event: &Event) -> (r: HistoryEventDto)
        ensures
            r@ == event@,
    {
        HistoryEventDto { event: event.copy() }
    }

    /// Returns the Event identity used for history/realtime deduplication.
    pub fn event_id(&self) -> (r: &str)
        ensures
            r@ == self@.event_id,
    {
        self.event.event_id.as_str()
    }

    /// Returns the owning Session.
    pub fn session_id(&self) -> (r: &str)
        ensures
            r@ == self@.session_id,
    {
        self.event.session_id.as_str()
    }

    /// Returns the actor that originated the Event's Action.
    pub fn actor_id(&self) -> (r: &str)
        ensures
            r@ == self@.actor_id,
    {
        self.event.actor_id.as_str()
    }

    /// Returns the causal Action identity.
    pub fn action_id(&self) -> (r: &str)
        ensures
            r@ == self@.action_id,
    {
        self.event.action_id.as_str()
    }

    /// Returns the stable Event type.
    pub fn event_type(&self) -> (r: &str)
        ensures
            r@ == self@.event_type,
    {
        self.event.event_type.as_str()
    }

    /// Returns the encoded Event occurrence time.
    pub fn occurred_at(&self) -> (r: &str)
        ensures
            r@ == self@.occurred_at,
    {
        self.event.occurred_at.as_str()
    }

    /// Returns the encoded authoritative Event payload.
    pub fn payload(&self) -> (r: &str)
        ensures
            r@ == self@.payload,
    {
        self.event.payload.as_str()
    }

    /// Returns the encoded protocol Event metadata.
    pub fn metadata(&self) -> (r: &str)
        ensures
            r@ == self@.metadata,
    {
        self.event.metadata.as_str()
    }
}

/// The contents of a list of history Events.
pub open spec fn history_events_view(events: Seq<HistoryEventDto>) -> Seq<EventView> {
    Seq::new(events.len(), |i: int| events[i]@)
}

/// One stable, append-ordered Canvas history page.
#[derive(Debug, PartialEq, Eq)]
pub struct CanvasHistoryPageDto {
    canvas_id: String,
    checkpoint: String,
    events: Vec<HistoryEventDto>,
    next_cursor: Option<String>,
    complete: bool,
}

/// The contents of [`CanvasHistoryPageDto`].
pub struct HistoryPageView {
    /// The resolved Canvas identity.
    pub canvas_id: Seq<char>,
    /// The stable checkpoint reused by every continuation.
    pub checkpoint: Seq<char>,
    /// The Events of the Canvas, in the order in which they were appended.
    pub events: Seq<EventView>,
    /// The Store continuation cursor when this replay is incomplete.
    pub next_cursor: Option<Seq<char>>,
    /// Whether the checkpoint boundary has been reached.
    pub complete: bool,
}

impl View for CanvasHistoryPageDto {
    type V = HistoryPageView;

    closed spec fn view(&self) -> HistoryPageView {
        HistoryPageView {
            canvas_id: self.canvas_id@,
            checkpoint: self.checkpoint@,
            events: history_events_view(self.events@),
            next_cursor: optional_text(self.next_cursor),
            complete: self.complete,
        }
    }
}

impl CanvasHistoryPageDto {
    /// Returns the resolved Canvas identity.
    pub fn canvas_id(&self) -> (r: &str)
        ensures
            r@ == self@.canvas_id,
    {
        self.canvas_id.as_str()
    }

    /// Returns the stable checkpoint reused by every continuation.
    pub fn checkpoint(&self) -> (r: &str)
        ensures
            r@ == self@.checkpoint,
    {
        self.checkpoint.as_str()
    }

    /// Returns target Canvas Events in EventStore append order.
    pub fn events(&self) -> (r: &[HistoryEventDto])
        ensures
            history_events_view(r@) == self@.events,
    {
        self.events.as_slice()
    }

    /// Returns the Store continuation cursor when this replay is incomplete.
    pub fn next_cursor(&self) -> (r: Option<&str>)
        ensures
            match r {
                Some(cursor) => self@.next_cursor == Some(cursor@),
                None => self@.next_cursor is None,
            },
    {
        match &self.next_cursor {
            Some(cursor) => Some(cursor.as_str()),
            None => None,
        }
    }

    /// Reports whether the checkpoint boundary has been reached.
    pub fn complete(&self) -> (r: bool)
        ensures
            r == self@.complete,
    {
        self.complete
    }
}

/// What the payload of a stored Canvas Event was read as.
#[derive(Debug)]
pub enum CanvasReading {
    /// The payload is not one of its Event type.
    Invalid,
    /// The Event belongs to no Canvas.
    NoCanvas,
    /// The Event belongs to the Canvas.
    Canvas(String),
}

/// The contents of [`CanvasReading`].
pub enum CanvasReadingView {
    /// The payload is not one of its Event type.
    Invalid,
    /// The Event belongs to no Canvas.
    NoCanvas,
    /// The Event belongs to the Canvas.
    Canvas(Seq<char>),
}

impl View for CanvasReading {
    type V = CanvasReadingView;

    open spec fn view(&self) -> CanvasReadingView {
        match *self {
            CanvasReading::Invalid => CanvasReadingView::Invalid,
            CanvasReading::NoCanvas => CanvasReadingView::NoCanvas,
            CanvasReading::Canvas(id) => CanvasReadingView::Canvas(id@),
        }
    }
}

/// A stored Event with the Canvas that it belongs to.
#[derive(Debug)]
pub struct HistoryRecord {
    /// The Event.
    pub event: Event,
    /// What its payload was read as.
    pub canvas: CanvasReading,
}

impl View for HistoryRecord {
    type V = (EventView, CanvasReadingView);

    open spec fn view(&self) -> (EventView, CanvasReadingView) {
        (self.event@, self.canvas@)
    }
}

/// A page of the EventStore.
#[derive(Debug)]
pub struct HistoryStorePage {
    /// The stored Events, in the order in which they were appended.
    pub records: Vec<HistoryRecord>,
    /// The cursor of the next page, if there is more.
    pub next_cursor: Option<String>,
}

/// The contents of [`HistoryStorePage`].
pub struct StorePageView {
    /// The stored Events, in the order in which they were appended.
    pub records: Seq<(EventView, CanvasReadingView)>,
    /// The cursor of the next page, if there is more.
    pub next_cursor: Option<Seq<char>>,
}

impl View for HistoryStorePage {
    type V = StorePageView;

    open spec fn view(&self) -> StorePageView {
        StorePageView {
            records: Seq::new(self.records@.len(), |i: int| self.records@[i]@),
            next_cursor: optional_text(self.next_cursor),
        }
    }
}

/// Whether every record belongs to a Canvas.
pub open spec fn are_canvas_records(records: Seq<(EventView, CanvasReadingView)>) -> bool {
    forall|i: int| 0 <= i < records.len() ==> (#[trigger] records[i]).1 is Canvas
}

/// The Events among the records that belong to the Canvas, in their order.
pub open spec fn events_of_canvas(
    records: Seq<(EventView, CanvasReadingView)>,
    canvas_id: Seq<char>,
) -> Seq<EventView>
    decreases records.len(),
{
    if records.len() == 0 {
        Seq::empty()
    } else if records.last().1 == CanvasReadingView::Canvas(canvas_id) {
        events_of_canvas(records.drop_last(), canvas_id).push(records.last().0)
    } else {
        events_of_canvas(records.drop_last(), canvas_id)
    }
}

/// The history page that a page of the EventStore makes for a Canvas.
pub open spec fn history_page_of(
    canvas_id: Seq<char>,
    checkpoint: Seq<char>,
    page: StorePageView,
) -> HistoryPageView {
    HistoryPageView {
        canvas_id,
        checkpoint,
        events: events_of_canvas(page.records, canvas_id),
        next_cursor: page.next_cursor,
        complete: page.next_cursor is None,
    }
}

/// Makes the history page of a Canvas from a page of the EventStore. A stored Canvas Event that
/// cannot be read is an internal failure.
pub fn history_page(canvas_id: &str, checkpoint: &str, page: &HistoryStorePage) -> (r: Result<
    CanvasHistoryPageDto,
    QueryHandlerError,
>)
    ensures
        match r {
            Ok(dto) => are_canvas_records(page@.records) && dto@ == history_page_of(
                canvas_id@,
                checkpoint@,
                page@,
            ),
            Err(error) => !are_canvas_records(page@.records) && error
                == QueryHandlerError::Internal,
        },
{
    let ghost records = page@.records;
    let mut events: Vec<HistoryEventDto> = Vec::new();
    let mut i: usize = 0;
    assert(records.take(0) =~= Seq::<(EventView, CanvasReadingView)>::empty());
    assert(history_events_view(events@) =~= Seq::<EventView>::empty());
    while i < page.records.len()
        invariant
            i <= page.records@.len(),
            records == page@.records,
            forall|j: int| 0 <= j < i ==> (#[trigger] records[j]).1 is Canvas,
            history_events_view(events@) == events_of_canvas(records.take(i as int), canvas_id@),
        decreases page.records@.len() - i,
    {
        let record = &page.records[i];
        assert(records[i as int] == record@);
        assert(records.take(i + 1).drop_last() =~= records.take(i as int));
        assert(records.take(i + 1).last() == record@);
        match &record.canvas {
            CanvasReading::Invalid => {
                assert(!(records[i as int].1 is Canvas));
                return Err(QueryHandlerError::Internal);
            },
            CanvasReading::NoCanvas => {
                assert(!(records[i as int].1 is Canvas));
                return Err(QueryHandlerError::Internal);
            },
            CanvasReading::Canvas(id) => if same_text(id.as_str(), canvas_id) {
                let ghost before = history_events_view(events@);
                let dto = HistoryEventDto::from_event(&record.event);
                events.push(dto);
                assert(history_events_view(events@) =~= before.push(record.event@));
            },
        }
        i = i + 1;
    }
    assert(records.take(i as int) =~= records);
    let next_cursor = match &page.next_cursor {
        Some(cursor) => Some(cursor.clone()),
        None => None,
    };
    let complete = next_cursor.is_none();
    Ok(
        CanvasHistoryPageDto {
            canvas_id: canvas_id.to_owned(),
            checkpoint: checkpoint.to_owned(),
            events,
            next_cursor,
            complete,
        },
    )
}

/// The limits of the Canvas history Query.
#[derive(Clone, Copy, Debug)]
pub struct CanvasHistoryQueryHandler {
    store_scan_limit: usize,
    max_message_bytes: usize,
}

impl CanvasHistoryQueryHandler {
    /// The largest number of stored Events scanned by one Query.
    pub closed spec fn scan_limit(self) -> int {
        self.store_scan_limit as int
    }

    /// The largest encoded response in bytes.
    pub closed spec fn message_limit(self) -> int {
        self.max_message_bytes as int
    }

    /// Creates a bounded history Query.
    pub fn new(store_scan_limit: usize, max_message_bytes: usize) -> (r: Result<
        CanvasHistoryQueryHandler,
        QueryHandlerError,
    >)
        ensures
            match r {
                Ok(handler) => 1 <= store_scan_limit <= MAX_HISTORY_STORE_SCAN_LIMIT
                    && max_message_bytes > 0 && handler.scan_limit() == store_scan_limit
                    && handler.message_limit() == max_message_bytes,
                Err(error) => !(1 <= store_scan_limit <= MAX_HISTORY_STORE_SCAN_LIMIT
                    && max_message_bytes > 0) && error == QueryHandlerError::Internal,
            },
    {
        if store_scan_limit == 0 || store_scan_limit > MAX_HISTORY_STORE_SCAN_LIMIT
            || max_message_bytes == 0 {
            return Err(QueryHandlerError::Internal);
        }
        Ok(CanvasHistoryQueryHandler { store_scan_limit, max_message_bytes })
    }

    /// Checks the size of an encoded response; none where it could not be encoded.
    pub fn guard_response_size(&self, encoded_bytes: Option<usize>) -> (r: Result<
        (),
        QueryHandlerError,
    >)
        ensures
            match r {
                Ok(_) => encoded_bytes is Some && encoded_bytes->0 <= self.message_limit(),
                Err(error) => (encoded_bytes is None || encoded_bytes->0 > self.message_limit())
                    && error == QueryHandlerError::Internal,
            },
    {
        match encoded_bytes {
            None => Err(QueryHandlerError::Internal),
            Some(size) => if size > self.max_message_bytes {
                Err(QueryHandlerError::Internal)
            } else {
                Ok(())
            },
        }
    }
}

/// A Query for the first page of a Canvas, or for the continuation of a replay.
#[derive(Debug)]
pub struct CanvasHistoryRequest {
    /// The Canvas.
    pub canvas_id: String,
    /// The checkpoint and the cursor of a continuation.
    pub continuation: Option<Continuation>,
}

/// The bounds of the continuation of a replay.
#[derive(Debug)]
pub struct Continuation {
    /// The checkpoint.
    pub checkpoint: String,
    /// The cursor.
    pub cursor: String,
}

/// The contents of [`CanvasHistoryRequest`].
pub struct HistoryRequestView {
    /// The Canvas.
    pub canvas_id: Seq<char>,
    /// The checkpoint and the cursor of a continuation.
    pub continuation: Option<(Seq<char>, Seq<char>)>,
}

impl View for CanvasHistoryRequest {
    type V = HistoryRequestView;

    open spec fn view(&self) -> HistoryRequestView {
        HistoryRequestView {
            canvas_id: self.canvas_id@,
            continuation: match self.continuation {
                Some(continuation) => Some((continuation.checkpoint@, continuation.cursor@)),
                None => None,
            },
        }
    }
}

/// What the Canvas catalog answered.
#[derive(Debug)]
pub enum CanvasLookup {
    /// The catalog failed.
    Failed,
    /// There is no such Canvas.
    Missing,
    /// The Canvas belongs to the Session.
    Found(String),
}

/// The contents of [`CanvasLookup`].
pub enum CanvasLookupView {
    /// The catalog failed.
    Failed,
    /// There is no such Canvas.
    Missing,
    /// The Canvas belongs to the Session.
    Found(Seq<char>),
}

impl View for CanvasLookup {
    type V = CanvasLookupView;

    open spec fn view(&self) -> CanvasLookupView {
        match *self {
            CanvasLookup::Failed => CanvasLookupView::Failed,
            CanvasLookup::Missing => CanvasLookupView::Missing,
            CanvasLookup::Found(session_id) => CanvasLookupView::Found(session_id@),
        }
    }
}

/// What is known so far of a history Query.
#[derive(Debug)]
pub struct HistoryFacts {
    /// What the Canvas catalog answered.
    pub canvas: Option<CanvasLookup>,
    /// Whether the actor may read the Session of the Canvas.
    pub authorization: Option<Result<(), CanvasHistoryReadAuthorizationError>>,
    /// The checkpoint captured for a first page.
    pub captured: Option<Result<String, StorageError>>,
    /// What the EventStore answered.
    pub page: Option<Result<HistoryStorePage, StorageError>>,
    /// The size of the encoded response; none inside where it could not be encoded.
    pub encoded_bytes: Option<Option<usize>>,
}

/// The contents of [`HistoryFacts`].
pub struct HistoryFactsView {
    /// What the Canvas catalog answered.
    pub canvas: Option<CanvasLookupView>,
    /// Whether the actor may read the Session of the Canvas.
    pub authorization: Option<Result<(), CanvasHistoryReadAuthorizationError>>,
    /// The checkpoint captured for a first page.
    pub captured: Option<Result<Seq<char>, StorageErrorView>>,
    /// What the EventStore answered.
    pub page: Option<Result<StorePageView, StorageErrorView>>,
    /// The size of the encoded response; none inside where it could not be encoded.
    pub encoded_bytes: Option<Option<usize>>,
}

impl View for HistoryFacts {
    type V = HistoryFactsView;

    open spec fn view(&self) -> HistoryFactsView {
        HistoryFactsView {
            canvas: match self.canvas {
                Some(lookup) => Some(lookup@),
                None => None,
            },
            authorization: self.authorization,
            captured: match self.captured {
                Some(Ok(checkpoint)) => Some(Ok(checkpoint@)),
                Some(Err(error)) => Some(Err(error@)),
                None => None,
            },
            page: match self.page {
                Some(Ok(page)) => Some(Ok(page@)),
                Some(Err(error)) => Some(Err(error@)),
                None => None,
            },
            encoded_bytes: self.encoded_bytes,
        }
    }
}

impl HistoryFacts {
    /// Creates the facts of a Query of which nothing is known yet.
    pub fn new() -> (r: HistoryFacts)
        ensures
            r@ == (HistoryFactsView {
                canvas: None,
                authorization: None,
                captured: None,
                page: None,
                encoded_bytes: None,
            }),
    {
        HistoryFacts {
            canvas: None,
            authorization: None,
            captured: None,
            page: None,
            encoded_bytes: None,
        }
    }
}

/// What a history Query does next.
#[derive(Debug, PartialEq, Eq)]
pub enum HistoryDecision {
    /// Ask the Canvas catalog for the Canvas.
    GetCanvas(String),
    /// Ask whether the actor may read the Session.
    Authorize(String),
    /// Capture a checkpoint of the EventStore.
    CaptureCheckpoint,
    /// Read the Canvas Events of the Session before the checkpoint and after the cursor.
    QueryEvents {
        /// The Session.
        session_id: String,
        /// The checkpoint.
        checkpoint: String,
        /// The cursor of a continuation.
        cursor: Option<String>,
        /// The largest number of Events.
        limit: usize,
    },
    /// Encode the page and tell its size.
    Encode(CanvasHistoryPageDto),
    /// The encoded page is the answer.
    Answer,
    /// The Query fails.
    Fail(QueryHandlerError),
}

/// The contents of [`HistoryDecision`].
pub enum HistoryDecisionView {
    /// Ask the Canvas catalog for the Canvas.
    GetCanvas(Seq<char>),
    /// Ask whether the actor may read the Session.
    Authorize(Seq<char>),
    /// Capture a checkpoint of the EventStore.
    CaptureCheckpoint,
    /// Read the Canvas Events of the Session before the checkpoint and after the cursor, up to the
    /// limit.
    QueryEvents(Seq<char>, Seq<char>, Option<Seq<char>>, int),
    /// Encode the page and tell its size.
    Encode(HistoryPageView),
    /// The encoded page is the answer.
    Answer,
    /// The Query fails.
    Fail(QueryHandlerError),
}

impl View for HistoryDecision {
    type V = HistoryDecisionView;

    open spec fn view(&self) -> HistoryDecisionView {
        match *self {
            HistoryDecision::GetCanvas(id) => HistoryDecisionView::GetCanvas(id@),
            HistoryDecision::Authorize(id) => HistoryDecisionView::Authorize(id@),
            HistoryDecision::CaptureCheckpoint => HistoryDecisionView::CaptureCheckpoint,
            HistoryDecision::QueryEvents { session_id, checkpoint, cursor, limit } =>
            HistoryDecisionView::QueryEvents(
                session_id@,
                checkpoint@,
                optional_text(cursor),
                limit as int,
            ),
            HistoryDecision::Encode(page) => HistoryDecisionView::Encode(page@),
            HistoryDecision::Answer => HistoryDecisionView::Answer,
            HistoryDecision::Fail(error) => HistoryDecisionView::Fail(error),
        }
    }
}

/// What a history Query does within the bounds of a replay.
pub open spec fn bounded_history_decision(
    handler: CanvasHistoryQueryHandler,
    canvas_id: Seq<char>,
    session_id: Seq<char>,
    checkpoint: Seq<char>,
    cursor: Option<Seq<char>>,
    facts: HistoryFactsView,
) -> HistoryDecisionView {
    match facts.page {
        None => HistoryDecisionView::QueryEvents(
            session_id,
            checkpoint,
            cursor,
            handler.scan_limit(),
        ),
        Some(Err(error)) => HistoryDecisionView::Fail(query_failure(error)),
        Some(Ok(page)) => if !are_canvas_records(page.records) {
            HistoryDecisionView::Fail(QueryHandlerError::Internal)
        } else {
            match facts.encoded_bytes {
                None => HistoryDecisionView::Encode(history_page_of(canvas_id, checkpoint, page)),
                Some(Some(size)) => if size <= handler.message_limit() {
                    HistoryDecisionView::Answer
                } else {
                    HistoryDecisionView::Fail(QueryHandlerError::Internal)
                },
                Some(None) => HistoryDecisionView::Fail(QueryHandlerError::Internal),
            }
        },
    }
}

/// What a history Query does next; `request` is none where its payload could not be read.
pub open spec fn history_decision(
    handler: CanvasHistoryQueryHandler,
    request: Option<HistoryRequestView>,
    facts: HistoryFactsView,
) -> HistoryDecisionView {
    match request {
        None => HistoryDecisionView::Fail(QueryHandlerError::InvalidQuery),
        Some(request) => match facts.canvas {
            None => HistoryDecisionView::GetCanvas(request.canvas_id),
            Some(CanvasLookupView::Failed) => HistoryDecisionView::Fail(
                QueryHandlerError::Unavailable,
            ),
            Some(CanvasLookupView::Missing) => HistoryDecisionView::Fail(
                QueryHandlerError::NotFound,
            ),
            Some(CanvasLookupView::Found(session_id)) => match facts.authorization {
                None => HistoryDecisionView::Authorize(session_id),
                Some(Err(error)) => HistoryDecisionView::Fail(history_authorization_failure(error)),
                Some(Ok(_)) => match request.continuation {
                    Some((checkpoint, cursor)) => bounded_history_decision(
                        handler,
                        request.canvas_id,
                        session_id,
                        checkpoint,
                        Some(cursor),
                        facts,
                    ),
                    None => match facts.captured {
                        None => HistoryDecisionView::CaptureCheckpoint,
                        Some(Err(error)) => HistoryDecisionView::Fail(capture_failure(error)),
                        Some(Ok(checkpoint)) => bounded_history_decision(
                            handler,
                            request.canvas_id,
                            session_id,
                            checkpoint,
                            None,
                            facts,
                        ),
                    },
                },
            },
        },
    }
}

fn decide_bounded(
    handler: &CanvasHistoryQueryHandler,
    canvas_id: &str,
    session_id: &str,
    checkpoint: &str,
    cursor: Option<String>,
    facts: &HistoryFacts,
) -> (r: HistoryDecision)
    ensures
        r@ == bounded_history_decision(
            *handler,
            canvas_id@,
            session_id@,
            checkpoint@,
            optional_text(cursor),
            facts@,
        ),
{
    match &facts.page {
        None => HistoryDecision::QueryEvents {
            session_id: session_id.to_owned(),
            checkpoint: checkpoint.to_owned(),
            cursor,
            limit: handler.store_scan_limit,
        },
        Some(Err(error)) => HistoryDecision::Fail(map_query_error(error)),
        Some(Ok(page)) => match history_page(canvas_id, checkpoint, page) {
            Err(error) => HistoryDecision::Fail(error),
            Ok(dto) => match facts.encoded_bytes {
                None => HistoryDecision::Encode(dto),
                Some(encoded_bytes) => match handler.guard_response_size(encoded_bytes) {
                    Ok(_) => HistoryDecision::Answer,
                    Err(error) => HistoryDecision::Fail(error),
                },
            },
        },
    }
}

impl CanvasHistoryQueryHandler {
    /// Decides what a history Query does next.
    ///
    /// The Canvas is resolved first, then its Session is authorized; only then is a checkpoint
    /// captured or are Events read. A continuation keeps the checkpoint of its first page.
    pub fn execute(&self, request: &Option<CanvasHistoryRequest>, facts: &HistoryFacts) -> (r:
        HistoryDecision)
        ensures
            r@ == history_decision(
                *self,
                match *request {
                    Some(request) => Some(request@),
                    None => None,
                },
                facts@,
            ),
    {
        let request = match request {
            Some(request) => request,
            None => {
                return HistoryDecision::Fail(QueryHandlerError::InvalidQuery);
            },
        };
        let session_id = match &facts.canvas {
            None => {
                return HistoryDecision::GetCanvas(request.canvas_id.clone());
            },
            Some(CanvasLookup::Failed) => {
                return HistoryDecision::Fail(QueryHandlerError::Unavailable);
            },
            Some(CanvasLookup::Missing) => {
                return HistoryDecision::Fail(QueryHandlerError::NotFound);
            },
            Some(CanvasLookup::Found(session_id)) => session_id,
        };
        match facts.authorization {
            None => {
                return HistoryDecision::Authorize(session_id.clone());
            },
            Some(Err(error)) => {
                return HistoryDecision::Fail(map_authorization_error(error));
            },
            Some(Ok(_)) => {},
        }
        match &request.continuation {
            Some(continuation) => decide_bounded(
                self,
                request.canvas_id.as_str(),
                session_id.as_str(),
                continuation.checkpoint.as_str(),
                Some(continuation.cursor.clone()),
                facts,
            ),
            None => match &facts.captured {
                None => HistoryDecision::CaptureCheckpoint,
                Some(Err(error)) => HistoryDecision::Fail(map_capture_error(error)),
                Some(Ok(checkpoint)) => decide_bounded(
                    self,
                    request.canvas_id.as_str(),
                    session_id.as_str(),
                    checkpoint.as_str(),
                    None,
                    facts,
                ),
            },
        }
    }
}

/// The EventStore is not touched for an actor who was not found to be allowed to read the Session
/// of the Canvas: no checkpoint is captured, no Event is read, and nothing is encoded.
pub proof fn law_history_is_not_read_without_authorization(
    handler: CanvasHistoryQueryHandler,
    request: Option<HistoryRequestView>,
    facts: HistoryFactsView,
)
    requires
        facts.authorization is None || facts.authorization->0 is Err,
    ensures
        match history_decision(handler, request, facts) {
            HistoryDecisionView::GetCanvas(_) => true,
            HistoryDecisionView::Authorize(_) => true,
            HistoryDecisionView::Fail(_) => true,
            _ => false,
        },
{
}

/// A continuation never captures a checkpoint of its own: it reads up to the one it was given, from
/// the cursor it was given on, and its pages name that checkpoint again.
pub proof fn law_continuation_keeps_its_checkpoint(
    handler: CanvasHistoryQueryHandler,
    request: HistoryRequestView,
    facts: HistoryFactsView,
    given_checkpoint: Seq<char>,
    given_cursor: Seq<char>,
)
    requires
        request.continuation == Some((given_checkpoint, given_cursor)),
    ensures
        !(history_decision(handler, Some(request), facts) is CaptureCheckpoint),
        history_decision(handler, Some(request), facts) matches HistoryDecisionView::QueryEvents(
            _,
            checkpoint,
            cursor,
            _,
        ) ==> checkpoint == given_checkpoint && cursor == Some(given_cursor),
        history_decision(handler, Some(request), facts) matches HistoryDecisionView::Encode(page)
            ==> page.checkpoint == given_checkpoint,
{
}

/// A page holds only Events of its Canvas, each of them as it was stored, and is complete exactly
/// when there is no cursor to continue from.
pub proof fn law_page_holds_only_its_canvas(
    canvas_id: Seq<char>,
    checkpoint: Seq<char>,
    page: StorePageView,
    i: int,
)
    requires
        0 <= i < history_page_of(canvas_id, checkpoint, page).events.len(),
    ensures
        page.records.contains(
            (
                history_page_of(canvas_id, checkpoint, page).events[i],
                CanvasReadingView::Canvas(canvas_id),
            ),
        ),
        history_page_of(canvas_id, checkpoint, page).complete <==> history_page_of(
            canvas_id,
            checkpoint,
            page,
        ).next_cursor is None,
{
    lemma_events_of_canvas(page.records, canvas_id, i);
}

proof fn lemma_events_of_canvas(
    records: Seq<(EventView, CanvasReadingView)>,
    canvas_id: Seq<char>,
    i: int,
)
    requires
        0 <= i < events_of_canvas(records, canvas_id).len(),
    ensures
        records.contains(
            (events_of_canvas(records, canvas_id)[i], CanvasReadingView::Canvas(canvas_id)),
        ),
    decreases records.len(),
{
    let init = records.drop_last();
    let last = records.last();
    if last.1 == CanvasReadingView::Canvas(canvas_id) && i == events_of_canvas(
        init,
        canvas_id,
    ).len() {
        assert(records[records.len() - 1] == last);
    } else {
        lemma_events_of_canvas(init, canvas_id, i);
        let wanted = (
            events_of_canvas(init, canvas_id)[i],
            CanvasReadingView::Canvas(canvas_id),
        );
        let k = choose|k: int| 0 <= k < init.len() && init[k] == wanted;
        assert(records[k] == wanted);
    }
}

/// No Event of the Canvas is left out of the page: every record that belongs to it is there.
pub proof fn law_page_holds_all_of_its_canvas(
    canvas_id: Seq<char>,
    checkpoint: Seq<char>,
    page: StorePageView,
    k: int,
)
    requires
        0 <= k < page.records.len(),
        page.records[k].1 == CanvasReadingView::Canvas(canvas_id),
    ensures
        history_page_of(canvas_id, checkpoint, page).events.contains(page.records[k].0),
{
    lemma_all_of_canvas(page.records, canvas_id, k);
}

proof fn lemma_all_of_canvas(
    records: Seq<(EventView, CanvasReadingView)>,
    canvas_id: Seq<char>,
    k: int,
)
    requires
        0 <= k < records.len(),
        records[k].1 == CanvasReadingView::Canvas(canvas_id),
    ensures
        events_of_canvas(records, canvas_id).contains(records[k].0),
    decreases records.len(),
{
    let init = records.drop_last();
    let all = events_of_canvas(records, canvas_id);
    if k == records.len() - 1 {
        assert(all[all.len() - 1] == records[k].0);
    } else {
        lemma_all_of_canvas(init, canvas_id, k);
        let before = events_of_canvas(init, canvas_id);
        let i = choose|i: int| 0 <= i < before.len() && before[i] == init[k].0;
        assert(all[i] == records[k].0);
    }
}

/// Following a replay from page to page gives the Events of the Canvas in all the stored Events
/// that the pages were made of: two pages give together what one page over both would give.
pub proof fn law_history_pages_concatenate(
    canvas_id: Seq<char>,
    first: Seq<(EventView, CanvasReadingView)>,
    second: Seq<(EventView, CanvasReadingView)>,
)
    ensures
        events_of_canvas(first + second, canvas_id) == events_of_canvas(first, canvas_id)
            + events_of_canvas(second, canvas_id),
    decreases second.len(),
{
    let both = first + second;
    if second.len() == 0 {
        assert(both =~= first);
        assert(events_of_canvas(first, canvas_id) + events_of_canvas(second, canvas_id)
            =~= events_of_canvas(first, canvas_id));
    } else {
        assert(both.drop_last() =~= first + second.drop_last());
        assert(both.last() == second.last());
        law_history_pages_concatenate(canvas_id, first, second.drop_last());
        assert(events_of_canvas(both, canvas_id) =~= events_of_canvas(first, canvas_id)
            + events_of_canvas(second, canvas_id));
    }
}

/// A history Query goes step by step: the Canvas is looked up, its Session is authorized, a first
/// page captures a checkpoint and a continuation takes its own, the Events of that Session are read
/// up to the checkpoint, from the cursor of a continuation on and no more than the scan limit, and
/// the page of the Canvas is encoded, which is the answer where it fits a message.
pub proof fn law_history_goes_step_by_step(
    handler: CanvasHistoryQueryHandler,
    request: HistoryRequestView,
    facts: HistoryFactsView,
    session_id: Seq<char>,
)
    ensures
        facts.canvas is None ==> history_decision(handler, Some(request), facts)
            == HistoryDecisionView::GetCanvas(request.canvas_id),
        facts.canvas == Some(CanvasLookupView::Found(session_id)) ==> {
            let next = history_decision(handler, Some(request), facts);
            &&& facts.authorization is None ==> next == HistoryDecisionView::Authorize(session_id)
            &&& (facts.authorization matches Some(Ok(_))) ==> {
                let first = request.continuation is None;
                let bounds: Option<(Seq<char>, Option<Seq<char>>)> = match request.continuation {
                    Some((checkpoint, cursor)) => Some((checkpoint, Some(cursor))),
                    None => match facts.captured {
                        Some(Ok(checkpoint)) => Some((checkpoint, None)),
                        _ => None,
                    },
                };
                &&& first && facts.captured is None ==> next is CaptureCheckpoint
                &&& bounds matches Some((checkpoint, cursor)) ==> {
                    &&& facts.page is None ==> next == HistoryDecisionView::QueryEvents(
                        session_id,
                        checkpoint,
                        cursor,
                        handler.scan_limit(),
                    )
                    &&& facts.page matches Some(Ok(page)) ==> {
                        let readable = forall|i: int|
                            0 <= i < page.records.len()
                                ==> (#[trigger] page.records[i]).1 is Canvas;
                        &&& !readable ==> next == HistoryDecisionView::Fail(
                            QueryHandlerError::Internal,
                        )
                        &&& readable && facts.encoded_bytes is None ==> (
                        next matches HistoryDecisionView::Encode(made) && made.canvas_id
                            == request.canvas_id && made.checkpoint == checkpoint
                            && made.next_cursor == page.next_cursor && made.complete == (
                        page.next_cursor is None))
                        &&& readable ==> match facts.encoded_bytes {
                            Some(Some(size)) => if size <= handler.message_limit() {
                                next is Answer
                            } else {
                                next == HistoryDecisionView::Fail(QueryHandlerError::Internal)
                            },
                            Some(None) => next == HistoryDecisionView::Fail(
                                QueryHandlerError::Internal,
                            ),
                            None => next is Encode,
                        }
                    }
                }
            }
        },
{
}

/// How a history Query fails: an unreadable payload is an invalid Query, a missing Canvas is not
/// found, what the authorization refuses is told as it is, a bad checkpoint or cursor is the fault
/// of the Query, a backend that cannot be reached is unavailable, and anything else is internal.
pub proof fn law_history_failures(
    handler: CanvasHistoryQueryHandler,
    request: HistoryRequestView,
    facts: HistoryFactsView,
    session_id: Seq<char>,
    error: StorageErrorView,
)
    ensures
        history_decision(handler, None, facts) == HistoryDecisionView::Fail(
            QueryHandlerError::InvalidQuery,
        ),
        facts.canvas == Some(CanvasLookupView::Failed) ==> history_decision(
            handler,
            Some(request),
            facts,
        ) == HistoryDecisionView::Fail(QueryHandlerError::Unavailable),
        facts.canvas == Some(CanvasLookupView::Missing) ==> history_decision(
            handler,
            Some(request),
            facts,
        ) == HistoryDecisionView::Fail(QueryHandlerError::NotFound),
        facts.canvas == Some(CanvasLookupView::Found(session_id)) ==> {
            let next = history_decision(handler, Some(request), facts);
            &&& facts.authorization matches Some(Err(refused)) ==> next
                == HistoryDecisionView::Fail(
                match refused {
                    CanvasHistoryReadAuthorizationError::Unauthorized =>
                    QueryHandlerError::Unauthorized,
                    CanvasHistoryReadAuthorizationError::Unavailable =>
                    QueryHandlerError::Unavailable,
                    CanvasHistoryReadAuthorizationError::Internal => QueryHandlerError::Internal,
                },
            )
            &&& (facts.authorization matches Some(Ok(_))) && request.continuation is None
                && facts.captured == Some(Err::<Seq<char>, StorageErrorView>(error)) ==> next
                == HistoryDecisionView::Fail(
                if error is BackendUnavailable {
                    QueryHandlerError::Unavailable
                } else {
                    QueryHandlerError::Internal
                },
            )
            &&& (facts.authorization matches Some(Ok(_))) && (request.continuation is Some || (
            facts.captured matches Some(Ok(_)))) && facts.page == Some(
                Err::<StorePageView, StorageErrorView>(error),
            ) ==> next == HistoryDecisionView::Fail(
                if error is InvalidQuery || error is InvalidCursor || error is InvalidCheckpoint {
                    QueryHandlerError::InvalidQuery
                } else if error is BackendUnavailable {
                    QueryHandlerError::Unavailable
                } else {
                    QueryHandlerError::Internal
                },
            )
        },
{
}

/// The Events of a Canvas come in the order in which they were stored: one more stored Event is put
/// behind the others where it belongs to the Canvas, and left out where it does not.
pub proof fn law_canvas_events_keep_their_order(
    records: Seq<(EventView, CanvasReadingView)>,
    event: EventView,
    reading: CanvasReadingView,
    canvas_id: Seq<char>,
)
    ensures
        events_of_canvas(Seq::empty(), canvas_id) == Seq::<EventView>::empty(),
        events_of_canvas(records.push((event, CanvasReadingView::Canvas(canvas_id))), canvas_id)
            == events_of_canvas(records, canvas_id).push(event),
        reading != CanvasReadingView::Canvas(canvas_id) ==> events_of_canvas(
            records.push((event, reading)),
            canvas_id,
        ) == events_of_canvas(records, canvas_id),
{
    assert(records.push((event, CanvasReadingView::Canvas(canvas_id))).drop_last() =~= records);
    assert(records.push((event, reading)).drop_last() =~= records);
}

/// The Events of a page show what they hold, in their order; a page of the EventStore shows its
/// records and its cursor.
pub proof fn law_views_of_history(events: Seq<HistoryEventDto>, page: HistoryStorePage)
    ensures
        history_events_view(events).len() == events.len(),
        forall|i: int| 0 <= i < events.len() ==> #[trigger] history_events_view(events)[i]
            == events[i]@,
        page@.records.len() == page.records@.len(),
        forall|i: int| 0 <= i < page.records@.len() ==> #[trigger] page@.records[i] == (
            page.records@[i].event@,
            page.records@[i].canvas@,
        ),
        page@.next_cursor == optional_text(page.next_cursor),
{
}

} // verus!
