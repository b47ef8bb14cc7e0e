//! Queries of the persistent EventStore.

use vstd::prelude::*;

use crate::event_store::{
    count_verdict, current_count, decode_row, failure, row_event, row_problem, stored_event, Event,
    EventView, StorageError, StorageErrorView, StoredEvent, StoredRow, StoredRowView,
};
use crate::text::{contains_string, optional_text, same_text, string_texts};

verus! {

/// The statement that every query starts with: the Events from one sequence up to another.
pub const SELECT_EVENTS: &'static str =
    "SELECT append_sequence, event_id, session_id, actor_id, action_id, occurred_at_json, \
     event_type, payload_json, metadata_json FROM events \
     WHERE append_sequence >= ? AND append_sequence < ?";

/// What a position token means to this open store.
#[derive(Clone, Copy, Debug, PartialEq, Eq, Structural)]
pub enum PositionReading {
    /// The token belongs to another store or to another opening of this one.
    Foreign,
    /// The token tells this position.
    At(u64),
}

/// A query for stored Events.
#[derive(Debug)]
pub struct EventQuery {
    /// Only Events of this Session.
    pub session_id: Option<String>,
    /// Only Events of this Actor.
    pub actor_id: Option<String>,
    /// Only Events of one of these types; any type where there are none.
    pub event_types: Vec<String>,
    /// The largest number of Events in a page.
    pub limit: usize,
    /// The checkpoint up to which Events are seen.
    pub upper_bound: Option<PositionReading>,
    /// The cursor after which the page begins.
    pub after_cursor: Option<PositionReading>,
    /// What is wrong with the query itself.
    pub refusal: Option<String>,
}

/// The contents of [`EventQuery`].
pub struct EventQueryView {
    /// Only Events of this Session.
    pub session_id: Option<Seq<char>>,
    /// Only Events of this Actor.
    pub actor_id: Option<Seq<char>>,
    /// Only Events of one of these types; any type where there are none.
    pub event_types: Seq<Seq<char>>,
    /// The largest number of Events in a page.
    pub limit: int,
    /// The checkpoint up to which Events are seen.
    pub upper_bound: Option<PositionReading>,
    /// The cursor after which the page begins.
    pub after_cursor: Option<PositionReading>,
    /// What is wrong with the query itself.
    pub refusal: Option<Seq<char>>,
}

impl View for EventQuery {
    type V = EventQueryView;

    open spec fn view(&self) -> EventQueryView {
        EventQueryView {
            session_id: optional_text(self.session_id),
            actor_id: optional_text(self.actor_id),
            event_types: string_texts(self.event_types@),
            limit: self.limit as int,
            upper_bound: self.upper_bound,
            after_cursor: self.after_cursor,
            refusal: optional_text(self.refusal),
        }
    }
}

/// Whether the query asks for the Event, apart from the time range.
pub open spec fn query_matches(query: EventQueryView, event: EventView) -> bool {
    &&& query.session_id is Some ==> query.session_id->0 == event.session_id
    &&& query.actor_id is Some ==> query.actor_id->0 == event.actor_id
    &&& query.event_types.len() > 0 ==> query.event_types.contains(event.event_type)
}

impl EventQuery {
    /// Returns whether the query asks for the Event, apart from the time range.
    pub fn matches(&self, event: &Event) -> (r: bool)
        ensures
            r == query_matches(self@, event@),
    {
        match &self.session_id {
            Some(session_id) => if !same_text(session_id.as_str(), event.session_id.as_str()) {
                return false;
            },
            None => {},
        }
        match &self.actor_id {
            Some(actor_id) => if !same_text(actor_id.as_str(), event.actor_id.as_str()) {
                return false;
            },
            None => {},
        }
        self.event_types.len() == 0 || contains_string(
            self.event_types.as_slice(),
            event.event_type.as_str(),
        )
    }
}

/// The positions between which a query looks, in a log of `count` Events.
///
/// A checkpoint and a cursor have to belong to this open store and to lie within the log, the
/// cursor within the checkpoint.
pub open spec fn bounds_in(query: EventQueryView, count: int) -> Result<
    (int, int),
    StorageErrorView,
> {
    let upper = match query.upper_bound {
        Some(PositionReading::At(position)) => position as int,
        _ => count,
    };
    let start = match query.after_cursor {
        Some(PositionReading::At(position)) => position as int,
        _ => 0,
    };
    if query.upper_bound == Some(PositionReading::Foreign) {
        Err(
            StorageErrorView::InvalidCheckpoint(
                "checkpoint does not belong to this SQLite store epoch"@,
            ),
        )
    } else if upper > count {
        Err(
            StorageErrorView::InvalidCheckpoint("checkpoint is beyond the stored event range"@),
        )
    } else if query.after_cursor == Some(PositionReading::Foreign) {
        Err(
            StorageErrorView::InvalidCursor("cursor does not belong to this SQLite store epoch"@),
        )
    } else if query.after_cursor == Some(PositionReading::At(0)) {
        Err(StorageErrorView::InvalidCursor("cursor position must be greater than zero"@))
    } else if start > upper {
        Err(StorageErrorView::InvalidCursor("cursor is beyond the query checkpoint"@))
    } else if start > i64::MAX {
        Err(StorageErrorView::BackendFailure("query cursor overflow"@))
    } else if upper > i64::MAX {
        Err(StorageErrorView::BackendFailure("query bound overflow"@))
    } else {
        Ok((start, upper))
    }
}

/// The positions between which a query looks, in a log whose highest sequence number is `max`.
pub open spec fn query_bounds_verdict(query: EventQueryView, max: Option<i64>) -> Result<
    (int, int),
    StorageErrorView,
> {
    if query.refusal is Some {
        Err(StorageErrorView::InvalidQuery(query.refusal->0))
    } else {
        match count_verdict(max) {
            Err(error) => Err(error),
            Ok(count) => bounds_in(query, count as int),
        }
    }
}

/// Returns the positions between which a query looks.
pub fn query_bounds(query: &EventQuery, max: Option<i64>) -> (r: Result<(i64, i64), StorageError>)
    ensures
        match r {
            Ok((start, upper)) => query_bounds_verdict(query@, max) == Ok::<
                (int, int),
                StorageErrorView,
            >((start as int, upper as int)),
            Err(error) => query_bounds_verdict(query@, max) == Err::<(int, int), StorageErrorView>(
                error@,
            ),
        },
{
    match &query.refusal {
        Some(reason) => {
            return Err(StorageError::InvalidQuery { reason: reason.clone() });
        },
        None => {},
    }
    let count: u64 = match current_count(max) {
        Ok(count) => count,
        Err(error) => {
            return Err(error);
        },
    };
    let upper: u64 = match query.upper_bound {
        Some(PositionReading::At(position)) => position,
        Some(PositionReading::Foreign) => {
            return Err(
                StorageError::InvalidCheckpoint {
                    reason: "checkpoint does not belong to this SQLite store epoch".to_owned(),
                },
            );
        },
        None => count,
    };
    if upper > count {
        return Err(
            StorageError::InvalidCheckpoint {
                reason: "checkpoint is beyond the stored event range".to_owned(),
            },
        );
    }
    let start: u64 = match query.after_cursor {
        Some(PositionReading::At(position)) => {
            if position == 0 {
                return Err(
                    StorageError::InvalidCursor {
                        reason: "cursor position must be greater than zero".to_owned(),
                    },
                );
            }
            position
        },
        Some(PositionReading::Foreign) => {
            return Err(
                StorageError::InvalidCursor {
                    reason: "cursor does not belong to this SQLite store epoch".to_owned(),
                },
            );
        },
        None => 0,
    };
    if start > upper {
        return Err(
            StorageError::InvalidCursor {
                reason: "cursor is beyond the query checkpoint".to_owned(),
            },
        );
    }
    if start > i64::MAX as u64 {
        return Err(failure("query cursor overflow"));
    }
    if upper > i64::MAX as u64 {
        return Err(failure("query bound overflow"));
    }
    Ok((start as i64, upper as i64))
}

/// A value bound to a statement.
#[derive(Debug, PartialEq, Eq)]
pub enum SqlValue {
    /// An integer.
    Integer(i64),
    /// A text.
    Text(String),
}

/// The contents of [`SqlValue`].
pub enum SqlValueView {
    /// An integer.
    Integer(int),
    /// A text.
    Text(Seq<char>),
}

impl View for SqlValue {
    type V = SqlValueView;

    open spec fn view(&self) -> SqlValueView {
        match *self {
            SqlValue::Integer(value) => SqlValueView::Integer(value as int),
            SqlValue::Text(value) => SqlValueView::Text(value@),
        }
    }
}

/// A statement and the values bound to its parameters, in their order.
#[derive(Debug, PartialEq, Eq)]
pub struct Statement {
    /// The statement text.
    pub sql: String,
    /// The bound values.
    pub values: Vec<SqlValue>,
}

/// The contents of a list of bound values.
pub open spec fn values_view(values: Seq<SqlValue>) -> Seq<SqlValueView> {
    Seq::new(values.len(), |i: int| values[i]@)
}

/// `n` parameters, separated by commas.
pub open spec fn parameters(n: nat) -> Seq<char>
    decreases n,
{
    if n == 0 {
        Seq::empty()
    } else if n == 1 {
        "?"@
    } else {
        parameters((n - 1) as nat) + ", "@ + "?"@
    }
}

/// The statement that reads the Events between two positions, narrowed by what the query asks for.
pub open spec fn query_text(query: EventQueryView) -> Seq<char> {
    let text = SELECT_EVENTS@;
    let text = if query.session_id is Some {
        text + " AND session_id = ?"@
    } else {
        text
    };
    let text = if query.actor_id is Some {
        text + " AND actor_id = ?"@
    } else {
        text
    };
    let text = if query.event_types.len() > 0 {
        text + " AND event_type IN ("@ + parameters(query.event_types.len()) + ")"@
    } else {
        text
    };
    text + " ORDER BY append_sequence ASC"@
}

/// The values bound to the parameters of [`query_text`].
pub open spec fn query_values(query: EventQueryView, start: int, upper: int) -> Seq<SqlValueView> {
    let values = seq![SqlValueView::Integer(start), SqlValueView::Integer(upper)];
    let values = if query.session_id is Some {
        values.push(SqlValueView::Text(query.session_id->0))
    } else {
        values
    };
    let values = if query.actor_id is Some {
        values.push(SqlValueView::Text(query.actor_id->0))
    } else {
        values
    };
    values + Seq::new(
        query.event_types.len(),
        |i: int| SqlValueView::Text(query.event_types[i]),
    )
}

/// Returns the statement that reads the Events between two positions, narrowed by what the query
/// asks for.
pub fn query_statement(query: &EventQuery, start: i64, upper: i64) -> (r: Statement)
    ensures
        r.sql@ == query_text(query@),
        values_view(r.values@) == query_values(query@, start as int, upper as int),
{
    let mut sql = SELECT_EVENTS.to_owned();
    let mut values: Vec<SqlValue> = Vec::new();
    values.push(SqlValue::Integer(start));
    values.push(SqlValue::Integer(upper));
    match &query.session_id {
        Some(session_id) => {
            sql.append(" AND session_id = ?");
            values.push(SqlValue::Text(session_id.clone()));
        },
        None => {},
    }
    match &query.actor_id {
        Some(actor_id) => {
            sql.append(" AND actor_id = ?");
            values.push(SqlValue::Text(actor_id.clone()));
        },
        None => {},
    }
    if query.event_types.len() > 0 {
        sql.append(" AND event_type IN (");
        let ghost text = sql@;
        let ghost bound = values@;
        let mut index: usize = 0;
        while index < query.event_types.len()
            invariant
                index <= query.event_types@.len(),
                sql@ == text + parameters(index as nat),
                values@.len() == bound.len() + index,
                forall|i: int| 0 <= i < bound.len() ==> values@[i] == bound[i],
                forall|i: int|
                    0 <= i < index ==> #[trigger] values@[bound.len() + i]@ == SqlValueView::Text(
                        query.event_types@[i]@,
                    ),
            decreases query.event_types@.len() - index,
        {
            if index > 0 {
                sql.append(", ");
            }
            sql.append("?");
            assert(sql@ =~= text + parameters((index + 1) as nat));
            values.push(SqlValue::Text(query.event_types[index].clone()));
            index = index + 1;
        }
        assert(values_view(values@) =~= values_view(bound) + Seq::new(
            query@.event_types.len(),
            |i: int| SqlValueView::Text(query@.event_types[i]),
        )) by {
            assert forall|i: int| 0 <= i < query@.event_types.len() implies values_view(
                values@,
            )[bound.len() + i] == SqlValueView::Text(query@.event_types[i]) by {
                assert(values@[bound.len() + i]@ == SqlValueView::Text(query.event_types@[i]@));
            }
            assert forall|k: int| bound.len() <= k < values@.len() implies values_view(values@)[k]
                == SqlValueView::Text(query@.event_types[k - bound.len()]) by {
                let i = k - bound.len();
                assert(values@[bound.len() + i]@ == SqlValueView::Text(query.event_types@[i]@));
            }
        }
        sql.append(")");
    }
    sql.append(" ORDER BY append_sequence ASC");
    assert(values_view(values@) =~= query_values(query@, start as int, upper as int));
    Statement { sql, values }
}

/// A page of Events, and the position after which the next page begins where there is more.
#[derive(Debug, PartialEq, Eq)]
pub struct EventPage {
    /// The Events, in the order in which they were appended.
    pub events: Vec<StoredEvent>,
    /// The position of the last Event, if more follow.
    pub next_cursor: Option<u64>,
}

/// The contents of [`EventPage`].
pub struct EventPageView {
    /// The Events with their positions.
    pub events: Seq<(int, EventView)>,
    /// The position of the last Event, if more follow.
    pub next_cursor: Option<int>,
}

/// The contents of a list of stored Events.
pub open spec fn stored_view(events: Seq<StoredEvent>) -> Seq<(int, EventView)> {
    Seq::new(events.len(), |i: int| events[i]@)
}

impl View for EventPage {
    type V = EventPageView;

    open spec fn view(&self) -> EventPageView {
        EventPageView {
            events: stored_view(self.events@),
            next_cursor: match self.next_cursor {
                Some(position) => Some(position as int),
                None => None,
            },
        }
    }
}

/// A row that a query's statement read.
#[derive(Debug)]
pub struct QueriedRow {
    /// The row.
    pub row: StoredRow,
    /// Whether the Event lies in the time range that the query asks for, if it asks for one.
    pub in_time_range: bool,
}

/// A row that a query's statement read, and whether it lies in the time range.
pub type QueriedRowView = (StoredRowView, bool);

impl View for QueriedRow {
    type V = QueriedRowView;

    open spec fn view(&self) -> QueriedRowView {
        (self.row@, self.in_time_range)
    }
}

/// The contents of optional rows, none for one that could not be read.
pub open spec fn queried_view(rows: Seq<Option<QueriedRow>>) -> Seq<Option<QueriedRowView>> {
    Seq::new(rows.len(), |i: int| optional_queried(rows[i]))
}

/// The contents of an optional row.
pub open spec fn optional_queried(row: Option<QueriedRow>) -> Option<QueriedRowView> {
    match row {
        Some(row) => Some(row@),
        None => None,
    }
}

/// Whether the query asks for the Event of a row.
pub open spec fn is_asked_for(query: EventQueryView, row: QueriedRowView) -> bool {
    row.1 && query_matches(query, row_event(row.0))
}

/// The Event of a row, with its position.
pub open spec fn found_event(row: QueriedRowView) -> (int, EventView) {
    (row.0.append_sequence + 1, row_event(row.0))
}

/// What is wrong with a row of a query.
pub open spec fn queried_problem(row: Option<QueriedRowView>) -> Option<Seq<char>> {
    match row {
        None => Some("SQLite EventStore row read failed"@),
        Some(row) => row_problem(row.0),
    }
}

/// A page that is full.
pub open spec fn full_page(events: Seq<(int, EventView)>) -> EventPageView {
    EventPageView {
        events,
        next_cursor: if events.len() > 0 {
            Some(events.last().0)
        } else {
            None
        },
    }
}

/// The page that a query makes of the rows from the one at `index` on, where `events` are on the
/// page already. A full page stops at the next Event that the query asks for.
pub open spec fn page_from(
    query: EventQueryView,
    rows: Seq<Option<QueriedRowView>>,
    index: int,
    events: Seq<(int, EventView)>,
) -> Result<EventPageView, StorageErrorView>
    decreases rows.len() - index,
{
    if index < 0 || index >= rows.len() {
        Ok(EventPageView { events, next_cursor: None })
    } else if queried_problem(rows[index]) is Some {
        Err(StorageErrorView::BackendFailure(queried_problem(rows[index])->0))
    } else if !is_asked_for(query, rows[index]->0) {
        page_from(query, rows, index + 1, events)
    } else if events.len() == query.limit {
        Ok(full_page(events))
    } else {
        page_from(query, rows, index + 1, events.push(found_event(rows[index]->0)))
    }
}

/// A page in the making.
#[derive(Debug)]
pub struct PageCollector {
    events: Vec<StoredEvent>,
}

impl View for PageCollector {
    type V = Seq<(int, EventView)>;

    closed spec fn view(&self) -> Seq<(int, EventView)> {
        stored_view(self.events@)
    }
}

impl PageCollector {
    /// Creates an empty page.
    pub fn new() -> (r: PageCollector)
        ensures
            r@ == Seq::<(int, EventView)>::empty(),
    {
        let events: Vec<StoredEvent> = Vec::new();
        assert(stored_view(events@) =~= Seq::<(int, EventView)>::empty());
        PageCollector { events }
    }

    /// Takes in the next row, and returns whether the page is full and more follows. The Event of
    /// the row is put on the page if the query asks for it.
    pub fn receive(&mut self, query: &EventQuery, row: Option<QueriedRow>) -> (r: Result<
        bool,
        StorageError,
    >)
        ensures
            match r {
                Err(error) => queried_problem(optional_queried(row)) is Some && error@
                    == StorageErrorView::BackendFailure(
                    queried_problem(optional_queried(row))->0,
                ) && final(self)@ == old(self)@,
                Ok(full) => queried_problem(optional_queried(row)) is None && full == (is_asked_for(
                    query@,
                    row->0@,
                ) && old(self)@.len() == query.limit) && final(self)@ == if is_asked_for(
                    query@,
                    row->0@,
                ) && !full {
                    old(self)@.push(found_event(row->0@))
                } else {
                    old(self)@
                },
            },
    {
        let row = match row {
            Some(row) => row,
            None => {
                return Err(failure("SQLite EventStore row read failed"));
            },
        };
        let in_time_range = row.in_time_range;
        let (sequence, event) = match decode_row(row.row) {
            Ok(decoded) => decoded,
            Err(error) => {
                return Err(error);
            },
        };
        if !in_time_range || !query.matches(&event) {
            return Ok(false);
        }
        if self.events.len() == query.limit {
            return Ok(true);
        }
        let ghost before = self@;
        match stored_event(sequence, event) {
            Ok(stored) => {
                self.events.push(stored);
                assert(self@ =~= before.push(stored@));
                Ok(false)
            },
            Err(error) => Err(error),
        }
    }

    /// Returns the page; `full` tells whether more follows.
    pub fn finish(self, full: bool) -> (r: EventPage)
        ensures
            r@ == if full {
                full_page(self@)
            } else {
                EventPageView { events: self@, next_cursor: None }
            },
    {
        let count: usize = self.events.len();
        let next_cursor = if full && count > 0 {
            Some(self.events[count - 1].position)
        } else {
            None
        };
        EventPage { events: self.events, next_cursor }
    }
}

/// Makes the page of a query from the rows that its statement read.
pub fn query_events(query: &EventQuery, rows: Vec<Option<QueriedRow>>) -> (r: Result<
    EventPage,
    StorageError,
>)
    ensures
        match r {
            Ok(page) => page_from(query@, queried_view(rows@), 0, Seq::empty()) == Ok::<
                EventPageView,
                StorageErrorView,
            >(page@),
            Err(error) => page_from(query@, queried_view(rows@), 0, Seq::empty()) == Err::<
                EventPageView,
                StorageErrorView,
            >(error@),
        },
{
    let ghost all = queried_view(rows@);
    let mut collector = PageCollector::new();
    for row in it: rows
        invariant
            it.seq() == rows@,
            all == queried_view(rows@),
            page_from(query@, all, 0, Seq::empty()) == page_from(
                query@,
                all,
                it.index(),
                collector@,
            ),
    {
        let ghost index = it.index();
        assert(all[index] == optional_queried(row));
        match collector.receive(query, row) {
            Err(error) => {
                return Err(error);
            },
            Ok(full) => if full {
                return Ok(collector.finish(true));
            },
        }
    }
    Ok(collector.finish(false))
}

/// Whether a row was read, lies in the time range, and has the Session, the Actor and one of the
/// types that the query names.
pub open spec fn is_named_by(query: EventQueryView, row: Option<QueriedRowView>) -> bool {
    match row {
        None => false,
        Some((columns, in_time_range)) => {
            &&& in_time_range
            &&& query.session_id is None || query.session_id == columns.session_id
            &&& query.actor_id is None || query.actor_id == columns.actor_id
            &&& query.event_types.len() == 0 || exists|t: int|
                0 <= t < query.event_types.len() && #[trigger] query.event_types[t]
                    == columns.event_type
        },
    }
}

/// Whether a row was read with every column.
pub open spec fn is_whole(row: Option<QueriedRowView>) -> bool {
    match row {
        None => false,
        Some((columns, _)) => {
            &&& columns.append_sequence >= 0
            &&& columns.event_id is Some
            &&& columns.session_id is Some
            &&& columns.actor_id is Some
            &&& columns.action_id is Some
            &&& columns.occurred_at is Some
            &&& columns.payload is Some
            &&& columns.metadata is Some
        },
    }
}

/// Whether the Event, with its position, is the one in the row.
pub open spec fn is_event_of(found: (int, EventView), row: Option<QueriedRowView>) -> bool {
    match row {
        None => false,
        Some((columns, _)) => {
            &&& found.0 == columns.append_sequence + 1
            &&& columns.event_id == Some(found.1.event_id)
            &&& columns.session_id == Some(found.1.session_id)
            &&& columns.actor_id == Some(found.1.actor_id)
            &&& columns.action_id == Some(found.1.action_id)
            &&& columns.event_type == found.1.event_type
            &&& columns.occurred_at == Some(found.1.occurred_at)
            &&& columns.payload == Some(found.1.payload)
            &&& columns.metadata == Some(found.1.metadata)
        },
    }
}

/// Whether the Events are those of the rows at the places, which come in order.
spec fn stand_at(
    rows: Seq<Option<QueriedRowView>>,
    events: Seq<(int, EventView)>,
    places: Seq<int>,
) -> bool {
    &&& places.len() == events.len()
    &&& forall|i: int|
        0 <= i < places.len() ==> 0 <= #[trigger] places[i] < rows.len() && is_event_of(
            events[i],
            rows[places[i]],
        )
    &&& forall|i: int, j: int| 0 <= i < j < places.len() ==> places[i] < places[j]
}

/// A query keeps exactly the Events that have the Session, the Actor and one of the types it names;
/// what it does not name, it does not look at.
pub proof fn law_filters_keep_what_they_name(query: EventQueryView, event: EventView)
    ensures
        query_matches(query, event) <==> {
            &&& query.session_id is None || query.session_id == Some(event.session_id)
            &&& query.actor_id is None || query.actor_id == Some(event.actor_id)
            &&& query.event_types.len() == 0 || exists|t: int|
                0 <= t < query.event_types.len() && #[trigger] query.event_types[t]
                    == event.event_type
        },
{
    if exists|t: int|
        0 <= t < query.event_types.len() && #[trigger] query.event_types[t] == event.event_type {
        assert(query.event_types.contains(event.event_type));
    }
}

/// What a query finds. Every Event on the page is that of a row with the Session, the Actor and one
/// of the types that the query names, inside the time range; they come in the order of the rows,
/// and are no more than the limit. Without a next cursor every such row is on the page. With one,
/// the page is full, the cursor is the position of its last Event, and every such row that is not
/// on the page comes behind it, and there is one.
pub proof fn law_query_finds_what_it_names(
    query: EventQueryView,
    rows: Seq<Option<QueriedRowView>>,
) -> (places: Seq<int>)
    requires
        query.limit > 0,
        forall|k: int| 0 <= k < rows.len() ==> is_whole(#[trigger] rows[k]),
    ensures
        page_from(query, rows, 0, Seq::empty()) is Ok,
        ({
            let page = page_from(query, rows, 0, Seq::empty())->Ok_0;
            &&& page.events.len() <= query.limit
            &&& places.len() == page.events.len()
            &&& forall|i: int|
                0 <= i < places.len() ==> 0 <= #[trigger] places[i] < rows.len() && is_named_by(
                    query,
                    rows[places[i]],
                ) && is_event_of(page.events[i], rows[places[i]])
            &&& forall|i: int, j: int| 0 <= i < j < places.len() ==> places[i] < places[j]
            &&& page.next_cursor is None ==> forall|k: int|
                0 <= k < rows.len() && is_named_by(query, #[trigger] rows[k]) ==> places.contains(k)
            &&& page.next_cursor matches Some(cursor) ==> {
                &&& page.events.len() == query.limit
                &&& cursor == page.events.last().0
                &&& forall|k: int|
                    0 <= k <= places.last() && is_named_by(query, #[trigger] rows[k])
                        ==> places.contains(k)
                &&& exists|k: int|
                    places.last() < k < rows.len() && is_named_by(query, #[trigger] rows[k])
            }
        }),
{
    let none = Seq::<(int, EventView)>::empty();
    lemma_page_places(query, rows, 0, none, Seq::empty())
}

proof fn lemma_page_places(
    query: EventQueryView,
    rows: Seq<Option<QueriedRowView>>,
    index: int,
    events: Seq<(int, EventView)>,
    before: Seq<int>,
) -> (places: Seq<int>)
    requires
        query.limit > 0,
        0 <= index <= rows.len(),
        forall|k: int| 0 <= k < rows.len() ==> is_whole(#[trigger] rows[k]),
        stand_at(rows, events, before),
        events.len() <= query.limit,
        forall|i: int|
            0 <= i < before.len() ==> #[trigger] before[i] < index && is_named_by(
                query,
                rows[before[i]],
            ),
        forall|k: int|
            0 <= k < index && is_named_by(query, #[trigger] rows[k]) ==> before.contains(k),
    ensures
        page_from(query, rows, index, events) is Ok,
        ({
            let page = page_from(query, rows, index, events)->Ok_0;
            &&& page.events.len() <= query.limit
            &&& stand_at(rows, page.events, places)
            &&& forall|i: int|
                0 <= i < places.len() ==> is_named_by(query, rows[#[trigger] places[i]])
            &&& page.next_cursor is None ==> forall|k: int|
                0 <= k < rows.len() && is_named_by(query, #[trigger] rows[k]) ==> places.contains(k)
            &&& page.next_cursor matches Some(cursor) ==> {
                &&& page.events.len() == query.limit
                &&& cursor == page.events.last().0
                &&& forall|k: int|
                    0 <= k <= places.last() && is_named_by(query, #[trigger] rows[k])
                        ==> places.contains(k)
                &&& exists|k: int|
                    places.last() < k < rows.len() && is_named_by(query, #[trigger] rows[k])
            }
        }),
    decreases rows.len() - index,
{
    if index >= rows.len() {
        before
    } else {
        let row = rows[index];
        assert(is_whole(row));
        let columns = (row->0).0;
        law_filters_keep_what_they_name(query, row_event(columns));
        assert(is_asked_for(query, row->0) == is_named_by(query, row));
        if !is_asked_for(query, row->0) {
            lemma_page_places(query, rows, index + 1, events, before)
        } else if events.len() == query.limit {
            assert(before[before.len() - 1] < index);
            assert(is_named_by(query, rows[index]));
            before
        } else {
            let more = before.push(index);
            assert forall|k: int|
                0 <= k < index + 1 && is_named_by(query, #[trigger] rows[k]) implies more.contains(
                k,
            ) by {
                if k < index {
                    assert(before.contains(k));
                    let i = choose|i: int| 0 <= i < before.len() && before[i] == k;
                    assert(more[i] == k);
                } else {
                    assert(more[more.len() - 1] == k);
                }
            }
            lemma_page_places(query, rows, index + 1, events.push(found_event(row->0)), more)
        }
    }
}

/// A full page tells the position of its last Event, and nothing where it holds none.
pub proof fn law_full_pages_tell_their_end(events: Seq<(int, EventView)>, last: (int, EventView))
    ensures
        full_page(events).events == events,
        full_page(events.push(last)).next_cursor == Some(last.0),
        full_page(Seq::empty()).next_cursor is None,
{
}

/// A row that could not be read, or of which a column could not be read, is never passed over:
/// where it comes before the page is full, the query fails.
pub proof fn law_broken_rows_fail_the_query(
    query: EventQueryView,
    rows: Seq<Option<QueriedRowView>>,
    k: int,
)
    requires
        0 <= k < rows.len() <= query.limit,
        !is_whole(rows[k]),
    ensures
        page_from(query, rows, 0, Seq::empty()) is Err,
{
    lemma_broken_row(query, rows, 0, Seq::empty(), k);
}

proof fn lemma_broken_row(
    query: EventQueryView,
    rows: Seq<Option<QueriedRowView>>,
    index: int,
    events: Seq<(int, EventView)>,
    k: int,
)
    requires
        0 <= index <= k < rows.len() <= query.limit,
        events.len() <= index,
        !is_whole(rows[k]),
    ensures
        page_from(query, rows, index, events) is Err,
    decreases rows.len() - index,
{
    if index < k && queried_problem(rows[index]) is None {
        if is_asked_for(query, rows[index]->0) {
            lemma_broken_row(
                query,
                rows,
                index + 1,
                events.push(found_event(rows[index]->0)),
                k,
            );
        } else {
            lemma_broken_row(query, rows, index + 1, events, k);
        }
    }
}

/// Where a query looks, in a log whose highest sequence number is `max`: from behind its cursor, or
/// from the beginning, up to its checkpoint, or to the end. It is refused exactly where the query
/// itself is, where a position belongs to another store, where the cursor is at the very beginning,
/// or where the positions do not lie in this order inside the log.
pub proof fn law_query_looks_between_its_positions(query: EventQueryView, max: Option<i64>)
    requires
        max matches Some(value) ==> 0 <= value < i64::MAX,
    ensures
        ({
            let count = match max {
                Some(value) => value + 1,
                None => 0,
            };
            let upper = match query.upper_bound {
                Some(PositionReading::At(position)) => position as int,
                _ => count,
            };
            let start = match query.after_cursor {
                Some(PositionReading::At(position)) => position as int,
                _ => 0,
            };
            let bounds = query_bounds_verdict(query, max);
            &&& bounds is Ok <==> {
                &&& query.refusal is None
                &&& query.upper_bound != Some(PositionReading::Foreign)
                &&& query.after_cursor != Some(PositionReading::Foreign)
                &&& query.after_cursor != Some(PositionReading::At(0))
                &&& start <= upper
                &&& upper <= count
            }
            &&& bounds is Ok ==> bounds->Ok_0 == (start, upper)
            &&& query.refusal matches Some(reason) ==> bounds == Err::<
                (int, int),
                StorageErrorView,
            >(StorageErrorView::InvalidQuery(reason))
            &&& query.refusal is None && (query.upper_bound == Some(PositionReading::Foreign)
                || upper > count) ==> (bounds matches Err(StorageErrorView::InvalidCheckpoint(_)))
            &&& query.refusal is None && query.upper_bound != Some(PositionReading::Foreign)
                && upper <= count && (query.after_cursor == Some(PositionReading::Foreign)
                || query.after_cursor == Some(PositionReading::At(0)) || start > upper) ==> (
            bounds matches Err(StorageErrorView::InvalidCursor(_)))
        }),
{
}

/// The statement of a query is that for all Events between two positions, with one condition more
/// for each thing that the query names, in this order; the values are bound in the same order, one
/// for each question mark.
pub proof fn law_statement_asks_for_what_the_query_names(
    query: EventQueryView,
    start: int,
    upper: int,
)
    ensures
        query_values(query, start, upper)[0] == SqlValueView::Integer(start),
        query_values(query, start, upper)[1] == SqlValueView::Integer(upper),
        query_text(query) == SELECT_EVENTS@ + (if query.session_id is Some {
            " AND session_id = ?"@
        } else {
            Seq::empty()
        }) + (if query.actor_id is Some {
            " AND actor_id = ?"@
        } else {
            Seq::empty()
        }) + (if query.event_types.len() > 0 {
            " AND event_type IN ("@ + parameters(query.event_types.len()) + ")"@
        } else {
            Seq::empty()
        }) + " ORDER BY append_sequence ASC"@,
        query_values(query, start, upper) == seq![
            SqlValueView::Integer(start),
            SqlValueView::Integer(upper),
        ] + (match query.session_id {
            Some(session_id) => seq![SqlValueView::Text(session_id)],
            None => Seq::empty(),
        }) + (match query.actor_id {
            Some(actor_id) => seq![SqlValueView::Text(actor_id)],
            None => Seq::empty(),
        }) + Seq::new(query.event_types.len(), |t: int| SqlValueView::Text(query.event_types[t])),
        SELECT_EVENTS@
            == "SELECT append_sequence, event_id, session_id, actor_id, action_id, occurred_at_json, event_type, payload_json, metadata_json FROM events WHERE append_sequence >= ? AND append_sequence < ?"@,
        parameters(1) == seq!['?'],
        query.event_types.len() > 0 ==> parameters(query.event_types.len() + 1) == parameters(
            query.event_types.len(),
        ) + seq![',', ' ', '?'],
{
    reveal_strlit("?");
    reveal_strlit(", ");
    assert("?"@ =~= seq!['?']);
    assert(parameters(1) =~= seq!['?']);
    let n = query.event_types.len();
    if n > 0 {
        assert(parameters(n + 1) =~= parameters(n) + seq![',', ' ', '?']);
    }
    let none = Seq::<char>::empty();
    assert(query_text(query) =~= SELECT_EVENTS@ + (if query.session_id is Some {
        " AND session_id = ?"@
    } else {
        none
    }) + (if query.actor_id is Some {
        " AND actor_id = ?"@
    } else {
        none
    }) + (if query.event_types.len() > 0 {
        " AND event_type IN ("@ + parameters(n) + ")"@
    } else {
        none
    }) + " ORDER BY append_sequence ASC"@);
}

/// A query, and what it read and found, show what they hold, in their order.
pub proof fn law_views_of_queries(
    query: EventQuery,
    rows: Seq<Option<QueriedRow>>,
    events: Seq<StoredEvent>,
    values: Seq<SqlValue>,
)
    ensures
        query@.session_id == optional_text(query.session_id),
        query@.actor_id == optional_text(query.actor_id),
        query@.event_types == string_texts(query.event_types@),
        query@.limit == query.limit,
        query@.upper_bound == query.upper_bound,
        query@.after_cursor == query.after_cursor,
        query@.refusal == optional_text(query.refusal),
        queried_view(rows).len() == rows.len(),
        forall|i: int|
            0 <= i < rows.len() ==> #[trigger] queried_view(rows)[i] == match rows[i] {
                Some(row) => Some((row.row@, row.in_time_range)),
                None => None,
            },
        stored_view(events).len() == events.len(),
        forall|i: int| 0 <= i < events.len() ==> #[trigger] stored_view(events)[i] == events[i]@,
        values_view(values).len() == values.len(),
        forall|i: int| 0 <= i < values.len() ==> #[trigger] values_view(values)[i] == values[i]@,
{
}

} // verus!
