//! What the persistent EventStore guarantees over its whole log.
//!
//! A log is the sequence of the Events appended so far. The laws of this module follow it through
//! the decisions of [`crate::event_store`] and [`crate::event_query`].

use vstd::prelude::*;

use crate::event_query::{
    bounds_in, found_event, full_page, is_asked_for, page_from, queried_problem, query_matches,
    EventPageView, EventQueryView, PositionReading, QueriedRowView,
};
use crate::event_store::{
    append_verdict, encoded_row, log_problem, log_row_problem, next_sequence, row_event,
    row_problem, EventView, StorageErrorView, StoredRowView,
};

verus! {

/// The rows that hold a log, in sequence order.
pub open spec fn log_rows(log: Seq<EventView>) -> Seq<Option<StoredRowView>> {
    Seq::new(log.len(), |i: int| Some(encoded_row(i, log[i])))
}

/// Whether no identifier occurs twice.
pub open spec fn is_distinct(log: Seq<EventView>) -> bool {
    forall|i: int, j: int|
        0 <= i < j < log.len() ==> (#[trigger] log[i]).event_id != (#[trigger] log[j]).event_id
}

/// The row that is stored under an identifier.
pub open spec fn row_of(log: Seq<EventView>, event_id: Seq<char>) -> Option<StoredRowView>
    decreases log.len(),
{
    if log.len() == 0 {
        None
    } else if log.last().event_id == event_id {
        Some(encoded_row(log.len() - 1, log.last()))
    } else {
        row_of(log.drop_last(), event_id)
    }
}

/// The highest sequence number of a log.
pub open spec fn highest(log: Seq<EventView>) -> Option<i64> {
    if log.len() == 0 {
        None
    } else {
        Some((log.len() - 1) as i64)
    }
}

/// What appending an Event makes of a log, and what is answered.
pub open spec fn append(log: Seq<EventView>, event: EventView) -> (
    Seq<EventView>,
    Result<(int, EventView), StorageErrorView>,
) {
    match append_verdict(event, row_of(log, event.event_id)) {
        Err(error) => (log, Err(error)),
        Ok(Some(stored)) => (log, Ok(stored)),
        Ok(None) => match next_sequence(highest(log)) {
            Err(error) => (log, Err(error)),
            Ok(sequence) => (log.push(event), Ok((sequence + 1, event))),
        },
    }
}

/// The Event stored under an identifier, with its position.
pub open spec fn get(log: Seq<EventView>, event_id: Seq<char>) -> Option<(int, EventView)> {
    match row_of(log, event_id) {
        Some(row) => Some((row.append_sequence + 1, row_event(row))),
        None => None,
    }
}

/// The row found under an identifier is that of an Event of the log.
proof fn lemma_row_of(log: Seq<EventView>, event_id: Seq<char>)
    ensures
        match row_of(log, event_id) {
            Some(row) => exists|i: int|
                0 <= i < log.len() && #[trigger] log[i].event_id == event_id && row == encoded_row(
                    i,
                    log[i],
                ),
            None => forall|i: int| 0 <= i < log.len() ==> #[trigger] log[i].event_id != event_id,
        },
    decreases log.len(),
{
    if log.len() > 0 {
        let init = log.drop_last();
        lemma_row_of(init, event_id);
        if log.last().event_id == event_id {
            assert(log[log.len() - 1].event_id == event_id);
        } else {
            match row_of(init, event_id) {
                Some(row) => {
                    let i = choose|i: int|
                        0 <= i < init.len() && #[trigger] init[i].event_id == event_id && row
                            == encoded_row(i, init[i]);
                    assert(log[i] == init[i]);
                    assert(log[i].event_id == event_id);
                },
                None => {
                    assert forall|i: int| 0 <= i < log.len() implies #[trigger] log[i].event_id
                        != event_id by {
                        if i < log.len() - 1 {
                            assert(init[i].event_id != event_id);
                        }
                    }
                },
            }
        }
    }
}

/// An Event whose identifier is new, and a log that is not full: the Event is appended behind all
/// others, keeps the log free of repeated identifiers, and is what is read back under its
/// identifier.
pub proof fn law_appended_event_is_read_back(log: Seq<EventView>, event: EventView)
    requires
        is_distinct(log),
        log.len() < i64::MAX,
        forall|i: int| 0 <= i < log.len() ==> #[trigger] log[i].event_id != event.event_id,
    ensures
        append(log, event) == (
            log.push(event),
            Ok::<(int, EventView), StorageErrorView>((log.len() as int + 1, event)),
        ),
        is_distinct(log.push(event)),
        get(log.push(event), event.event_id) == Some((log.len() as int + 1, event)),
{
    lemma_row_of(log, event.event_id);
    let next = log.push(event);
    assert(next.last() == event);
    assert forall|i: int, j: int| 0 <= i < j < next.len() implies (#[trigger] next[i]).event_id != (
    #[trigger] next[j]).event_id by {
        if j < log.len() {
            assert(next[i] == log[i]);
            assert(next[j] == log[j]);
        } else {
            assert(next[i] == log[i]);
        }
    }
    let row = encoded_row(log.len() as int, event);
    assert(row_event(row) == event);
}

/// Appending an Event that is stored already changes nothing and is answered with its place;
/// appending it right after it was appended gives the same answer again.
pub proof fn law_append_is_idempotent(log: Seq<EventView>, event: EventView, i: int)
    requires
        is_distinct(log),
        0 <= i < log.len() <= i64::MAX,
        log[i] == event,
    ensures
        append(log, event) == (log, Ok::<(int, EventView), StorageErrorView>((i + 1, event))),
        get(log, event.event_id) == Some((i + 1, event)),
{
    lemma_row_of(log, event.event_id);
    assert(log[i].event_id == event.event_id);
    let row = row_of(log, event.event_id)->0;
    let k = choose|k: int|
        0 <= k < log.len() && #[trigger] log[k].event_id == event.event_id && row == encoded_row(
            k,
            log[k],
        );
    assert(k == i) by {
        if k < i {
            assert(log[k].event_id != log[i].event_id);
        } else if i < k {
            assert(log[i].event_id != log[k].event_id);
        }
    }
    assert(row_event(row) == event);
}

/// A different Event under a stored identifier is refused as a conflict, and the stored one stays.
pub proof fn law_conflicting_append_changes_nothing(log: Seq<EventView>, event: EventView, i: int)
    requires
        is_distinct(log),
        0 <= i < log.len() <= i64::MAX,
        log[i].event_id == event.event_id,
        log[i] != event,
    ensures
        append(log, event) == (
            log,
            Err::<(int, EventView), StorageErrorView>(
                StorageErrorView::EventConflict(event.event_id),
            ),
        ),
        get(log, event.event_id) == Some((i + 1, log[i])),
{
    law_append_is_idempotent(log, log[i], i);
    lemma_row_of(log, event.event_id);
    let row = row_of(log, event.event_id)->0;
    let k = choose|k: int|
        0 <= k < log.len() && #[trigger] log[k].event_id == event.event_id && row == encoded_row(
            k,
            log[k],
        );
    assert(k == i) by {
        if k < i {
            assert(log[k].event_id != log[i].event_id);
        } else if i < k {
            assert(log[i].event_id != log[k].event_id);
        }
    }
    assert(row_event(row) == log[i]);
}

/// No append removes or changes a stored Event: the log before it is a prefix of the log after it.
pub proof fn law_append_only_adds(log: Seq<EventView>, event: EventView)
    ensures
        append(log, event).0.len() <= log.len() + 1,
        append(log, event).0.take(log.len() as int) == log,
        append(log, event).1 is Err ==> append(log, event).0 == log,
{
    assert(log.take(log.len() as int) =~= log);
    assert(log.push(event).take(log.len() as int) =~= log);
}

/// Every log that was made by appending passes the check that is made when a store is opened.
pub proof fn law_stored_log_passes_verification(log: Seq<EventView>)
    requires
        log.len() <= i64::MAX,
    ensures
        log_problem(log_rows(log), 0) is None,
{
    lemma_log_problem(log, 0);
}

proof fn lemma_log_problem(log: Seq<EventView>, index: int)
    requires
        0 <= index <= log.len() <= i64::MAX,
    ensures
        log_problem(log_rows(log), index) is None,
    decreases log.len() - index,
{
    if index < log.len() {
        assert(log_row_problem(log_rows(log)[index], index) is None);
        lemma_log_problem(log, index + 1);
    }
}

/// Which times lie in the time range that a query asks for.
pub type TimeRange = spec_fn(Seq<char>) -> bool;

/// The rows that a query's statement reads: those between two positions that the query asks for
/// apart from the time range, in sequence order.
pub open spec fn selected(
    log: Seq<EventView>,
    query: EventQueryView,
    times: TimeRange,
    start: int,
    upper: int,
) -> Seq<Option<QueriedRowView>>
    decreases upper - start,
{
    if upper <= start {
        Seq::empty()
    } else if query_matches(query, log[upper - 1]) {
        selected(log, query, times, start, upper - 1).push(
            Some(
                (encoded_row(upper - 1, log[upper - 1]), times(log[upper - 1].occurred_at)),
            ),
        )
    } else {
        selected(log, query, times, start, upper - 1)
    }
}

/// The Events between two positions that the query asks for, each with its position.
pub open spec fn matching(
    log: Seq<EventView>,
    query: EventQueryView,
    times: TimeRange,
    start: int,
    upper: int,
) -> Seq<(int, EventView)>
    decreases upper - start,
{
    if upper <= start {
        Seq::empty()
    } else if query_matches(query, log[upper - 1]) && times(log[upper - 1].occurred_at) {
        matching(log, query, times, start, upper - 1).push((upper, log[upper - 1]))
    } else {
        matching(log, query, times, start, upper - 1)
    }
}

/// The page that a query gives between two positions of a log.
pub open spec fn page(
    log: Seq<EventView>,
    query: EventQueryView,
    times: TimeRange,
    start: int,
    upper: int,
) -> Result<EventPageView, StorageErrorView> {
    page_from(query, selected(log, query, times, start, upper), 0, Seq::empty())
}

/// The Events that a query asks for among the rows from the one at `index` on.
pub open spec fn asked_from(
    query: EventQueryView,
    rows: Seq<Option<QueriedRowView>>,
    index: int,
) -> Seq<(int, EventView)>
    decreases rows.len() - index,
{
    if index < 0 || index >= rows.len() {
        Seq::empty()
    } else if is_asked_for(query, rows[index]->0) {
        seq![found_event(rows[index]->0)] + asked_from(query, rows, index + 1)
    } else {
        asked_from(query, rows, index + 1)
    }
}

proof fn lemma_asked_push(
    query: EventQueryView,
    rows: Seq<Option<QueriedRowView>>,
    row: Option<QueriedRowView>,
    index: int,
)
    requires
        0 <= index <= rows.len(),
    ensures
        asked_from(query, rows.push(row), index) == if is_asked_for(query, row->0) {
            asked_from(query, rows, index).push(found_event(row->0))
        } else {
            asked_from(query, rows, index)
        },
    decreases rows.len() - index,
{
    let after = rows.push(row);
    if index < rows.len() {
        assert(after[index] == rows[index]);
        lemma_asked_push(query, rows, row, index + 1);
        let rest = asked_from(query, rows, index + 1);
        if is_asked_for(query, rows[index]->0) && is_asked_for(query, row->0) {
            assert(seq![found_event(rows[index]->0)] + rest.push(found_event(row->0)) =~= (
            seq![found_event(rows[index]->0)] + rest).push(found_event(row->0)));
        }
    } else {
        assert(after[index] == row);
        assert(asked_from(query, after, index + 1) =~= Seq::<(int, EventView)>::empty());
        assert(asked_from(query, rows, index) =~= Seq::<(int, EventView)>::empty());
        if is_asked_for(query, row->0) {
            assert(asked_from(query, after, index) =~= seq![found_event(row->0)]);
        }
    }
}

/// The selected rows can all be decoded, and hold the matching Events in the same order.
proof fn lemma_selected(
    log: Seq<EventView>,
    query: EventQueryView,
    times: TimeRange,
    start: int,
    upper: int,
)
    requires
        0 <= start,
        upper <= log.len() <= i64::MAX,
    ensures
        asked_from(query, selected(log, query, times, start, upper), 0) == matching(
            log,
            query,
            times,
            start,
            upper,
        ),
        forall|i: int|
            0 <= i < selected(log, query, times, start, upper).len() ==> queried_problem(
                #[trigger] selected(log, query, times, start, upper)[i],
            ) is None,
    decreases upper - start,
{
    let rows = selected(log, query, times, start, upper);
    if upper > start {
        lemma_selected(log, query, times, start, upper - 1);
        let init = selected(log, query, times, start, upper - 1);
        let event = log[upper - 1];
        if query_matches(query, event) {
            let row = encoded_row(upper - 1, event);
            let last = Some((row, times(event.occurred_at)));
            assert(row_event(row) == event);
            assert(row_problem(row) is None);
            lemma_asked_push(query, init, last, 0);
            assert forall|i: int| 0 <= i < rows.len() implies queried_problem(
                #[trigger] rows[i],
            ) is None by {
                if i < init.len() {
                    assert(rows[i] == init[i]);
                }
            }
        }
    } else {
        assert(asked_from(query, rows, 0) =~= Seq::<(int, EventView)>::empty());
    }
}

/// The matching Events lie between the positions, are those of the log, and come in order.
pub proof fn lemma_matching(
    log: Seq<EventView>,
    query: EventQueryView,
    times: TimeRange,
    start: int,
    upper: int,
)
    requires
        0 <= start,
    ensures
        forall|i: int|
            0 <= i < matching(log, query, times, start, upper).len() ==> {
                let found = #[trigger] matching(log, query, times, start, upper)[i];
                &&& start < found.0 <= upper
                &&& found.1 == log[found.0 - 1]
                &&& query_matches(query, found.1)
                &&& times(found.1.occurred_at)
            },
        forall|i: int, j: int|
            0 <= i < j < matching(log, query, times, start, upper).len() ==> (#[trigger] matching(
                log,
                query,
                times,
                start,
                upper,
            )[i]).0 < (#[trigger] matching(log, query, times, start, upper)[j]).0,
    decreases upper - start,
{
    let all = matching(log, query, times, start, upper);
    if upper > start {
        lemma_matching(log, query, times, start, upper - 1);
        let init = matching(log, query, times, start, upper - 1);
        assert forall|i: int| 0 <= i < all.len() implies {
            let found = #[trigger] all[i];
            &&& start < found.0 <= upper
            &&& found.1 == log[found.0 - 1]
            &&& query_matches(query, found.1)
            &&& times(found.1.occurred_at)
        } by {
            if i < init.len() {
                assert(all[i] == init[i]);
            }
        }
        assert forall|i: int, j: int| 0 <= i < j < all.len() implies (#[trigger] all[i]).0 < (
        #[trigger] all[j]).0 by {
            assert(all[i] == init[i]);
            if j < init.len() {
                assert(all[j] == init[j]);
            }
        }
    }
}

/// The page of rows that can all be decoded: the first Events that the query asks for.
proof fn lemma_page_from(
    query: EventQueryView,
    rows: Seq<Option<QueriedRowView>>,
    events: Seq<(int, EventView)>,
    index: int,
)
    requires
        0 <= index <= rows.len(),
        events.len() <= query.limit,
        forall|i: int| 0 <= i < rows.len() ==> queried_problem(#[trigger] rows[i]) is None,
    ensures
        ({
            let all = events + asked_from(query, rows, index);
            page_from(query, rows, index, events) == Ok::<EventPageView, StorageErrorView>(
                if all.len() <= query.limit {
                    EventPageView { events: all, next_cursor: None }
                } else {
                    full_page(all.take(query.limit))
                },
            )
        }),
    decreases rows.len() - index,
{
    let all = events + asked_from(query, rows, index);
    if index == rows.len() {
        assert(all =~= events);
    } else {
        assert(queried_problem(rows[index]) is None);
        if !is_asked_for(query, rows[index]->0) {
            lemma_page_from(query, rows, events, index + 1);
        } else if events.len() < query.limit {
            let more = events.push(found_event(rows[index]->0));
            lemma_page_from(query, rows, more, index + 1);
            assert(more + asked_from(query, rows, index + 1) =~= all);
        } else {
            assert(all.take(query.limit) =~= events);
        }
    }
}

/// A page holds the first Events that the query asks for, in the order in which they were
/// appended, up to its limit, and tells the position of the last of them exactly when more follow.
pub proof fn law_page_is_the_first_matching_events(
    log: Seq<EventView>,
    query: EventQueryView,
    times: TimeRange,
    start: int,
    upper: int,
)
    requires
        0 <= start,
        upper <= log.len() <= i64::MAX,
        query.limit > 0,
    ensures
        page(log, query, times, start, upper) is Ok,
        ({
            let found = matching(log, query, times, start, upper);
            let page = page(log, query, times, start, upper)->Ok_0;
            if found.len() <= query.limit {
                page.events == found && page.next_cursor is None
            } else {
                page.events == found.take(query.limit) && page.next_cursor == Some(
                    found[query.limit - 1].0,
                )
            }
        }),
{
    lemma_selected(log, query, times, start, upper);
    let rows = selected(log, query, times, start, upper);
    let found = matching(log, query, times, start, upper);
    let none = Seq::<(int, EventView)>::empty();
    lemma_page_from(query, rows, none, 0);
    assert(none + found =~= found);
}

/// What is found between two positions is what is found up to a position between them, followed by
/// what is found after it.
proof fn lemma_matching_splits(
    log: Seq<EventView>,
    query: EventQueryView,
    times: TimeRange,
    start: int,
    middle: int,
    upper: int,
)
    requires
        start <= middle <= upper,
    ensures
        matching(log, query, times, start, upper) == matching(log, query, times, start, middle)
            + matching(
            log,
            query,
            times,
            middle,
            upper,
        ),
    decreases upper - middle,
{
    if upper > middle {
        lemma_matching_splits(log, query, times, start, middle, upper - 1);
    }
    assert(matching(log, query, times, start, upper) =~= matching(log, query, times, start, middle) + matching(
        log,
        query,
        times,
        middle,
        upper,
    ));
}

/// The cursor of a page that is not the last moves on, and what follows it is exactly what the page
/// left out.
pub proof fn law_cursor_continues_where_the_page_ends(
    log: Seq<EventView>,
    query: EventQueryView,
    times: TimeRange,
    start: int,
    upper: int,
)
    requires
        0 <= start,
        upper <= log.len() <= i64::MAX,
        query.limit > 0,
        page(log, query, times, start, upper)->Ok_0.next_cursor is Some,
    ensures
        ({
            let page = page(log, query, times, start, upper)->Ok_0;
            let cursor = page.next_cursor->0;
            &&& start < cursor <= upper
            &&& matching(log, query, times, start, upper) == page.events + matching(
                log,
                query,
                times,
                cursor,
                upper,
            )
        }),
{
    law_page_is_the_first_matching_events(log, query, times, start, upper);
    lemma_matching(log, query, times, start, upper);
    let found = matching(log, query, times, start, upper);
    let limit = query.limit;
    let cursor = found[limit - 1].0;
    assert(start < cursor <= upper);
    lemma_matching_splits(log, query, times, start, cursor, upper);
    let before = matching(log, query, times, start, cursor);
    let after = matching(log, query, times, cursor, upper);
    lemma_matching(log, query, times, start, cursor);
    lemma_matching(log, query, times, cursor, upper);
    assert(query_matches(query, log[cursor - 1]) && times(log[cursor - 1].occurred_at));
    assert(before.len() > 0 && before.last().0 == cursor);
    assert(found[before.len() - 1] == before.last());
    assert(before.len() == limit) by {
        if before.len() < limit {
            assert(found[before.len() - 1].0 < found[limit - 1].0);
        } else if before.len() > limit {
            assert(found[limit - 1].0 < found[before.len() - 1].0);
        }
    }
    assert(found.take(limit) =~= before);
}

/// All Events that a reader sees who follows the cursors from page to page.
pub open spec fn all_pages(
    log: Seq<EventView>,
    query: EventQueryView,
    times: TimeRange,
    start: int,
    upper: int,
) -> Seq<(int, EventView)>
    decreases upper - start,
{
    let page = page(log, query, times, start, upper)->Ok_0;
    match page.next_cursor {
        Some(cursor) => if start < cursor <= upper {
            page.events + all_pages(log, query, times, cursor, upper)
        } else {
            page.events
        },
        None => page.events,
    }
}

/// A reader who follows the cursors up to a checkpoint sees every Event that the query asks for
/// exactly once, in the order in which they were appended.
pub proof fn law_paging_is_complete(
    log: Seq<EventView>,
    query: EventQueryView,
    times: TimeRange,
    start: int,
    upper: int,
)
    requires
        0 <= start,
        upper <= log.len() <= i64::MAX,
        query.limit > 0,
    ensures
        all_pages(log, query, times, start, upper) == matching(log, query, times, start, upper),
    decreases upper - start,
{
    law_page_is_the_first_matching_events(log, query, times, start, upper);
    let page = page(log, query, times, start, upper)->Ok_0;
    if let Some(cursor) = page.next_cursor {
        law_cursor_continues_where_the_page_ends(log, query, times, start, upper);
        law_paging_is_complete(log, query, times, cursor, upper);
    }
}

/// A checkpoint is a stable boundary: Events appended after it change neither the bounds of a query
/// up to it nor what the query finds.
pub proof fn law_checkpoint_hides_later_events(
    log: Seq<EventView>,
    later: Seq<EventView>,
    query: EventQueryView,
    times: TimeRange,
    start: int,
    checkpoint: u64,
)
    requires
        0 <= start,
        checkpoint <= log.len() <= later.len() <= i64::MAX,
        later.take(log.len() as int) == log,
        query.upper_bound == Some(PositionReading::At(checkpoint)),
    ensures
        bounds_in(query, later.len() as int) == bounds_in(query, log.len() as int),
        matching(later, query, times, start, checkpoint as int) == matching(
            log,
            query,
            times,
            start,
            checkpoint as int,
        ),
        page(later, query, times, start, checkpoint as int) == page(
            log,
            query,
            times,
            start,
            checkpoint as int,
        ),
{
    lemma_prefix_decides(log, later, query, times, start, checkpoint as int);
}

proof fn lemma_prefix_decides(
    log: Seq<EventView>,
    later: Seq<EventView>,
    query: EventQueryView,
    times: TimeRange,
    start: int,
    upper: int,
)
    requires
        0 <= start,
        upper <= log.len() <= later.len(),
        later.take(log.len() as int) == log,
    ensures
        selected(later, query, times, start, upper) == selected(log, query, times, start, upper),
        matching(later, query, times, start, upper) == matching(log, query, times, start, upper),
    decreases upper - start,
{
    if upper > start {
        lemma_prefix_decides(log, later, query, times, start, upper - 1);
        assert(later.take(log.len() as int)[upper - 1] == later[upper - 1]);
    }
}

/// A checkpoint or a cursor of another store, or of an earlier opening of this one, is refused.
pub proof fn law_foreign_positions_are_refused(query: EventQueryView, count: int)
    ensures
        query.upper_bound == Some(PositionReading::Foreign) ==> bounds_in(query, count)
            matches Err(StorageErrorView::InvalidCheckpoint(_)),
        query.after_cursor == Some(PositionReading::Foreign) ==> bounds_in(query, count) is Err,
{
}

/// What a query finds in a log: the Event at a position is found exactly where the position lies
/// behind the first bound and not behind the second, the Event has the Session, the Actor and one
/// of the types that the query names, and its time lies in the time range. A reader who follows the
/// cursors sees exactly these.
pub proof fn law_query_sees_exactly_the_named_events(
    log: Seq<EventView>,
    query: EventQueryView,
    times: TimeRange,
    start: int,
    upper: int,
    position: int,
)
    requires
        0 <= start,
        upper <= log.len() <= i64::MAX,
        query.limit > 0,
        0 < position <= log.len(),
    ensures
        all_pages(log, query, times, start, upper).contains((position, log[position - 1])) <==> {
            let event = log[position - 1];
            &&& start < position <= upper
            &&& query.session_id is None || query.session_id == Some(event.session_id)
            &&& query.actor_id is None || query.actor_id == Some(event.actor_id)
            &&& query.event_types.len() == 0 || exists|t: int|
                0 <= t < query.event_types.len() && #[trigger] query.event_types[t]
                    == event.event_type
            &&& times(event.occurred_at)
        },
        forall|i: int|
            0 <= i < all_pages(log, query, times, start, upper).len() ==> {
                let found = #[trigger] all_pages(log, query, times, start, upper)[i];
                0 < found.0 <= log.len() && found.1 == log[found.0 - 1]
            },
        forall|i: int, j: int|
            0 <= i < j < all_pages(log, query, times, start, upper).len() ==> (#[trigger] all_pages(
                log,
                query,
                times,
                start,
                upper,
            )[i]).0 < (#[trigger] all_pages(log, query, times, start, upper)[j]).0,
{
    law_paging_is_complete(log, query, times, start, upper);
    lemma_matching(log, query, times, start, upper);
    crate::event_query::law_filters_keep_what_they_name(query, log[position - 1]);
    if start < position <= upper && query_matches(query, log[position - 1]) && times(
        log[position - 1].occurred_at,
    ) {
        lemma_matching_has(log, query, times, start, upper, position);
    }
}

proof fn lemma_matching_has(
    log: Seq<EventView>,
    query: EventQueryView,
    times: TimeRange,
    start: int,
    upper: int,
    position: int,
)
    requires
        start < position <= upper,
        query_matches(query, log[position - 1]),
        times(log[position - 1].occurred_at),
    ensures
        matching(log, query, times, start, upper).contains((position, log[position - 1])),
    decreases upper - start,
{
    let all = matching(log, query, times, start, upper);
    if position == upper {
        assert(all[all.len() - 1] == (position, log[position - 1]));
    } else {
        let init = matching(log, query, times, start, upper - 1);
        lemma_matching_has(log, query, times, start, upper - 1, position);
        let i = choose|i: int| 0 <= i < init.len() && init[i] == (position, log[position - 1]);
        assert(all[i] == init[i]);
    }
}

} // verus!
