//! What a reader sees who follows the history of a Canvas from page to page.
//!
//! A replay asks [`crate::canvas_history`] for a first page, and then for the page behind the cursor
//! of the one before, until a page is complete. The EventStore answers as
//! [`crate::event_log`] states, and Events may be appended between any two pages.

use vstd::prelude::*;

use crate::canvas_history::{
    are_canvas_records, events_of_canvas, history_decision, history_page_of,
    law_history_pages_concatenate, CanvasHistoryQueryHandler, CanvasLookupView, CanvasReadingView,
    HistoryDecisionView, HistoryFactsView, HistoryPageView, HistoryRequestView, StorePageView,
};
use crate::event_log::{
    highest, law_checkpoint_hides_later_events, law_cursor_continues_where_the_page_ends,
    law_page_is_the_first_matching_events, lemma_matching, matching, page, TimeRange,
};
use crate::event_query::{query_bounds_verdict, query_matches, EventQueryView, PositionReading};
use crate::event_store::{EventView, StorageErrorView};
use crate::query::QueryHandlerError;

verus! {

/// A replay of the history of one Canvas, by an actor who may read its Session.
pub struct Replay {
    /// The Query handler.
    pub handler: CanvasHistoryQueryHandler,
    /// The Canvas.
    pub canvas_id: Seq<char>,
    /// The Session of the Canvas.
    pub session_id: Seq<char>,
    /// The types of the Events of Canvases.
    pub event_types: Seq<Seq<char>>,
    /// What the payload of an Event is read as.
    pub reading: spec_fn(EventView) -> CanvasReadingView,
    /// The log of the EventStore when the pages are read, by the number of the page.
    pub logs: spec_fn(int) -> Seq<EventView>,
    /// The checkpoint that is captured for the first page.
    pub checkpoint: u64,
    /// The text of the checkpoint.
    pub checkpoint_text: Seq<char>,
    /// The text of the cursor at a position.
    pub cursor_text: spec_fn(int) -> Seq<char>,
    /// The position that the text of a cursor is read as.
    pub cursor_position: spec_fn(Seq<char>) -> PositionReading,
    /// The size of an encoded page, if it can be encoded.
    pub encoded: spec_fn(HistoryPageView) -> Option<usize>,
}

/// Every time lies in the time range.
pub open spec fn any_time() -> TimeRange {
    |time: Seq<char>| true
}

impl Replay {
    /// Whether a page may hold something, the log only grows, and the EventStore reads its own
    /// cursors.
    pub open spec fn is_consistent(self) -> bool {
        &&& self.handler.scan_limit() > 0
        &&& self.event_types.len() > 0
        &&& forall|n: int|
            0 <= n ==> self.checkpoint <= (#[trigger] (self.logs)(n)).len() <= i64::MAX && (
            self.logs)(n).take(self.checkpoint as int) == self.stored()
        &&& forall|position: int|
            0 < position <= self.checkpoint ==> (self.cursor_position)(
                #[trigger] (self.cursor_text)(position),
            ) == PositionReading::At(position as u64)
    }

    /// The log up to the checkpoint.
    pub open spec fn stored(self) -> Seq<EventView> {
        (self.logs)(0).take(self.checkpoint as int)
    }

    /// Whether the Event is one that a history Query reads.
    pub open spec fn is_candidate(self, event: EventView) -> bool {
        event.session_id == self.session_id && self.event_types.contains(event.event_type)
    }

    /// The Events of the Canvas between two positions of the log, in the order in which they were
    /// appended.
    pub open spec fn canvas_history(self, start: int, upper: int) -> Seq<EventView>
        decreases upper - start,
    {
        if upper <= start {
            Seq::empty()
        } else if self.is_candidate(self.stored()[upper - 1]) && (self.reading)(
            self.stored()[upper - 1],
        ) == CanvasReadingView::Canvas(self.canvas_id) {
            self.canvas_history(start, upper - 1).push(self.stored()[upper - 1])
        } else {
            self.canvas_history(start, upper - 1)
        }
    }

    /// The query that the EventStore is asked.
    pub open spec fn store_query(
        self,
        session_id: Seq<char>,
        checkpoint: Seq<char>,
        cursor: Option<Seq<char>>,
        limit: int,
    ) -> EventQueryView {
        EventQueryView {
            session_id: Some(session_id),
            actor_id: None,
            event_types: self.event_types,
            limit,
            upper_bound: Some(
                if checkpoint == self.checkpoint_text {
                    PositionReading::At(self.checkpoint)
                } else {
                    PositionReading::Foreign
                },
            ),
            after_cursor: match cursor {
                Some(cursor) => Some((self.cursor_position)(cursor)),
                None => None,
            },
            refusal: None,
        }
    }

    /// The stored Events with what their payloads are read as.
    pub open spec fn records(self, events: Seq<(int, EventView)>) -> Seq<
        (EventView, CanvasReadingView),
    > {
        Seq::new(events.len(), |i: int| (events[i].1, (self.reading)(events[i].1)))
    }

    /// What the EventStore answers to the query of the page with the number.
    pub open spec fn store_answer(self, n: int, query: EventQueryView) -> Result<
        StorePageView,
        StorageErrorView,
    > {
        match query_bounds_verdict(query, highest((self.logs)(n))) {
            Err(error) => Err(error),
            Ok((start, upper)) => match page((self.logs)(n), query, any_time(), start, upper) {
                Err(error) => Err(error),
                Ok(page) => Ok(
                    StorePageView {
                        records: self.records(page.events),
                        next_cursor: match page.next_cursor {
                            Some(position) => Some((self.cursor_text)(position)),
                            None => None,
                        },
                    },
                ),
            },
        }
    }

    /// What is known of the Query for a page once the actor was found to be allowed to read it.
    pub open spec fn facts(
        self,
        store: Option<Result<StorePageView, StorageErrorView>>,
        encoded_bytes: Option<Option<usize>>,
    ) -> HistoryFactsView {
        HistoryFactsView {
            canvas: Some(CanvasLookupView::Found(self.session_id)),
            authorization: Some(Ok(())),
            captured: Some(Ok(self.checkpoint_text)),
            page: store,
            encoded_bytes,
        }
    }

    /// What the Query for the page with the number is answered, following the decisions of the
    /// handler step by step.
    pub open spec fn answer(self, n: int, request: HistoryRequestView) -> Result<
        HistoryPageView,
        QueryHandlerError,
    > {
        match history_decision(self.handler, Some(request), self.facts(None, None)) {
            HistoryDecisionView::QueryEvents(session_id, checkpoint, cursor, limit) => {
                let store = self.store_answer(
                    n,
                    self.store_query(session_id, checkpoint, cursor, limit),
                );
                match history_decision(self.handler, Some(request), self.facts(Some(store), None)) {
                    HistoryDecisionView::Encode(page) => match history_decision(
                        self.handler,
                        Some(request),
                        self.facts(Some(store), Some((self.encoded)(page))),
                    ) {
                        HistoryDecisionView::Answer => Ok(page),
                        HistoryDecisionView::Fail(error) => Err(error),
                        _ => Err(QueryHandlerError::Internal),
                    },
                    HistoryDecisionView::Fail(error) => Err(error),
                    _ => Err(QueryHandlerError::Internal),
                }
            },
            HistoryDecisionView::Fail(error) => Err(error),
            _ => Err(QueryHandlerError::Internal),
        }
    }

    /// The pages from the one with the number on, where `continuation` holds the checkpoint and the
    /// cursor of the page before, and `start` is the position of that cursor. A cursor that does
    /// not lead on ends the replay with a failure.
    pub open spec fn pages(
        self,
        n: int,
        start: int,
        continuation: Option<(Seq<char>, Seq<char>)>,
    ) -> Result<Seq<HistoryPageView>, QueryHandlerError>
        decreases self.checkpoint - start,
    {
        match self.answer(n, HistoryRequestView { canvas_id: self.canvas_id, continuation }) {
            Err(error) => Err(error),
            Ok(page) => match page.next_cursor {
                None => Ok(seq![page]),
                Some(cursor) => match (self.cursor_position)(cursor) {
                    PositionReading::At(position) => if start < position <= self.checkpoint {
                        match self.pages(n + 1, position as int, Some((page.checkpoint, cursor))) {
                            Err(error) => Err(error),
                            Ok(rest) => Ok(seq![page] + rest),
                        }
                    } else {
                        Err(QueryHandlerError::Internal)
                    },
                    PositionReading::Foreign => Err(QueryHandlerError::Internal),
                },
            },
        }
    }
}

/// The Events of the pages, one page after the other.
pub open spec fn events_of_pages(pages: Seq<HistoryPageView>) -> Seq<EventView>
    decreases pages.len(),
{
    if pages.len() == 0 {
        Seq::empty()
    } else {
        pages[0].events + events_of_pages(pages.skip(1))
    }
}

/// The candidates between two positions, read as they are, hold the history of the Canvas.
proof fn lemma_candidates(replay: Replay, query: EventQueryView, start: int, upper: int)
    requires
        replay.event_types.len() > 0,
        query.session_id == Some(replay.session_id),
        query.actor_id is None,
        query.event_types == replay.event_types,
    ensures
        events_of_canvas(
            replay.records(matching(replay.stored(), query, any_time(), start, upper)),
            replay.canvas_id,
        ) == replay.canvas_history(start, upper),
    decreases upper - start,
{
    let all = replay.records(matching(replay.stored(), query, any_time(), start, upper));
    if upper > start {
        lemma_candidates(replay, query, start, upper - 1);
        let init = replay.records(matching(replay.stored(), query, any_time(), start, upper - 1));
        let event = replay.stored()[upper - 1];
        assert(query_matches(query, event) == replay.is_candidate(event));
        assert(any_time()(event.occurred_at));
        if replay.is_candidate(event) {
            assert(all.drop_last() =~= init);
            assert(all.last() == (event, (replay.reading)(event)));
        } else {
            assert(all =~= init);
        }
    } else {
        assert(all =~= Seq::<(EventView, CanvasReadingView)>::empty());
    }
}

/// The request for the page behind a position.
pub open spec fn follows(
    replay: Replay,
    start: int,
    continuation: Option<(Seq<char>, Seq<char>)>,
) -> bool {
    match continuation {
        None => start == 0,
        Some((checkpoint, cursor)) => {
            &&& 0 < start <= replay.checkpoint
            &&& checkpoint == replay.checkpoint_text
            &&& (replay.cursor_position)(cursor) == PositionReading::At(start as u64)
        },
    }
}

/// The query that is asked for the page behind a position.
spec fn query_behind(replay: Replay, continuation: Option<(Seq<char>, Seq<char>)>) -> EventQueryView {
    replay.store_query(
        replay.session_id,
        replay.checkpoint_text,
        match continuation {
            Some((_, cursor)) => Some(cursor),
            None => None,
        },
        replay.handler.scan_limit(),
    )
}

/// One page of a replay: what the EventStore answers, and what is left of the history behind it.
proof fn lemma_page(
    replay: Replay,
    n: int,
    start: int,
    continuation: Option<(Seq<char>, Seq<char>)>,
)
    requires
        replay.is_consistent(),
        0 <= n,
        follows(replay, start, continuation),
    ensures
        replay.store_answer(n, query_behind(replay, continuation)) is Ok,
        ({
            let store = replay.store_answer(n, query_behind(replay, continuation))->Ok_0;
            let events = events_of_canvas(store.records, replay.canvas_id);
            match store.next_cursor {
                None => events == replay.canvas_history(start, replay.checkpoint as int),
                Some(cursor) => (replay.cursor_position)(cursor) matches PositionReading::At(
                    position,
                ) && start < position <= replay.checkpoint && events + replay.canvas_history(
                    position as int,
                    replay.checkpoint as int,
                ) == replay.canvas_history(start, replay.checkpoint as int),
            }
        }),
        (forall|i: int|
            0 <= i < replay.checkpoint && replay.is_candidate(
                #[trigger] replay.stored()[i],
            ) ==> (replay.reading)(replay.stored()[i]) is Canvas) ==> are_canvas_records(
            replay.store_answer(n, query_behind(replay, continuation))->Ok_0.records,
        ),
{
    let query = query_behind(replay, continuation);
    let log = (replay.logs)(n);
    let base = replay.stored();
    let upper = replay.checkpoint as int;
    assert((replay.logs)(0).len() >= upper);
    assert(base.len() == upper);
    assert(log.take(upper) == base);
    assert(query_bounds_verdict(query, highest(log)) == Ok::<(int, int), StorageErrorView>(
        (start, upper),
    ));
    law_checkpoint_hides_later_events(base, log, query, any_time(), start, replay.checkpoint);
    law_page_is_the_first_matching_events(base, query, any_time(), start, upper);
    let found = page(base, query, any_time(), start, upper)->Ok_0;
    let all = matching(base, query, any_time(), start, upper);
    lemma_candidates(replay, query, start, upper);
    lemma_matching(base, query, any_time(), start, upper);
    let records = replay.records(found.events);
    if let Some(cursor) = found.next_cursor {
        law_cursor_continues_where_the_page_ends(base, query, any_time(), start, upper);
        let rest = matching(base, query, any_time(), cursor, upper);
        lemma_candidates(replay, query, cursor, upper);
        assert(replay.records(all) =~= records + replay.records(rest));
        law_history_pages_concatenate(replay.canvas_id, records, replay.records(rest));
        assert((replay.cursor_position)((replay.cursor_text)(cursor)) == PositionReading::At(
            cursor as u64,
        ));
    }
    if forall|i: int|
        0 <= i < replay.checkpoint && replay.is_candidate(#[trigger] replay.stored()[i]) ==> (
        replay.reading)(replay.stored()[i]) is Canvas {
        assert forall|i: int| 0 <= i < records.len() implies (#[trigger] records[i]).1 is Canvas by {
            assert(found.events[i] == all[i]);
            let event = all[i];
            assert(query_matches(query, event.1));
            assert(replay.is_candidate(base[event.0 - 1]));
        }
    }
}

/// A replay is right from a page on: all its pages name the checkpoint, the last one and no other
/// is complete, and together they hold the history of the Canvas behind the position.
proof fn lemma_pages(
    replay: Replay,
    n: int,
    start: int,
    continuation: Option<(Seq<char>, Seq<char>)>,
)
    requires
        replay.is_consistent(),
        0 <= n,
        follows(replay, start, continuation),
        replay.pages(n, start, continuation) is Ok,
    ensures
        ({
            let pages = replay.pages(n, start, continuation)->Ok_0;
            &&& pages.len() > 0
            &&& forall|i: int|
                0 <= i < pages.len() ==> {
                    let page = #[trigger] pages[i];
                    &&& page.canvas_id == replay.canvas_id
                    &&& page.checkpoint == replay.checkpoint_text
                    &&& page.complete == (page.next_cursor is None)
                    &&& page.complete == (i == pages.len() - 1)
                }
            &&& events_of_pages(pages) == replay.canvas_history(start, replay.checkpoint as int)
        }),
    decreases replay.checkpoint - start,
{
    lemma_page(replay, n, start, continuation);
    let request = HistoryRequestView { canvas_id: replay.canvas_id, continuation };
    let page = replay.answer(n, request)->Ok_0;
    let pages = replay.pages(n, start, continuation)->Ok_0;
    match page.next_cursor {
        None => {
            assert(pages == seq![page]);
            assert(pages.skip(1) =~= Seq::<HistoryPageView>::empty());
            assert(events_of_pages(pages.skip(1)) =~= Seq::<EventView>::empty());
            assert(events_of_pages(pages) =~= page.events);
        },
        Some(cursor) => {
            let position = (replay.cursor_position)(cursor)->At_0 as int;
            lemma_pages(replay, n + 1, position, Some((page.checkpoint, cursor)));
            let rest = replay.pages(n + 1, position, Some((page.checkpoint, cursor)))->Ok_0;
            assert(pages == seq![page] + rest);
            assert(pages.skip(1) =~= rest);
            assert forall|i: int| 0 <= i < pages.len() implies {
                let each = #[trigger] pages[i];
                &&& each.canvas_id == replay.canvas_id
                &&& each.checkpoint == replay.checkpoint_text
                &&& each.complete == (each.next_cursor is None)
                &&& each.complete == (i == pages.len() - 1)
            } by {
                if i > 0 {
                    assert(pages[i] == rest[i - 1]);
                }
            }
        },
    }
}

/// A replay that is answered page by page gives the whole history of the Canvas and nothing else:
/// the Events of its pages, one page after the other, are exactly the stored Events of the Canvas
/// up to the first page's checkpoint, in the order in which they were appended, each once, however
/// much is appended meanwhile. All pages name that checkpoint, and the last one and no other is
/// complete and without a cursor.
pub proof fn law_replay_is_the_history_of_the_canvas(replay: Replay)
    requires
        replay.is_consistent(),
        replay.pages(0, 0, None) is Ok,
    ensures
        ({
            let pages = replay.pages(0, 0, None)->Ok_0;
            &&& pages.len() > 0
            &&& forall|i: int|
                0 <= i < pages.len() ==> {
                    let page = #[trigger] pages[i];
                    &&& page.canvas_id == replay.canvas_id
                    &&& page.checkpoint == replay.checkpoint_text
                    &&& page.complete == (page.next_cursor is None)
                    &&& page.complete == (i == pages.len() - 1)
                }
            &&& events_of_pages(pages) == replay.canvas_history(0, replay.checkpoint as int)
        }),
{
    lemma_pages(replay, 0, 0, None);
}

/// A replay is answered to its end where every Event that it reads can be read as one of a Canvas
/// and every page fits a message.
pub proof fn law_replay_comes_to_its_end(
    replay: Replay,
    n: int,
    start: int,
    continuation: Option<(Seq<char>, Seq<char>)>,
)
    requires
        replay.is_consistent(),
        0 <= n,
        follows(replay, start, continuation),
        forall|i: int|
            0 <= i < replay.checkpoint && replay.is_candidate(
                #[trigger] replay.stored()[i],
            ) ==> (replay.reading)(replay.stored()[i]) is Canvas,
        forall|page: HistoryPageView|
            (#[trigger] (replay.encoded)(page)) matches Some(size) && size
                <= replay.handler.message_limit(),
    ensures
        replay.pages(n, start, continuation) is Ok,
    decreases replay.checkpoint - start,
{
    lemma_page(replay, n, start, continuation);
    let request = HistoryRequestView { canvas_id: replay.canvas_id, continuation };
    let store = replay.store_answer(n, query_behind(replay, continuation));
    let page = history_page_of(
        replay.canvas_id,
        replay.checkpoint_text,
        store->Ok_0,
    );
    assert((replay.encoded)(page) is Some);
    assert(replay.answer(n, request) == Ok::<HistoryPageView, QueryHandlerError>(page));
    if let Some(cursor) = page.next_cursor {
        let position = (replay.cursor_position)(cursor)->At_0 as int;
        law_replay_comes_to_its_end(replay, n + 1, position, Some((page.checkpoint, cursor)));
    }
}

} // verus!
