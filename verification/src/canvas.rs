//! Canvas descriptors of a process, replay of one Stroke, and keyed execution coordination.

use vstd::prelude::*;

use crate::catalog::{CanvasDescriptor, CanvasView};
use crate::catalog_publish::canvases_view;
use crate::config::Dimension;
use crate::event_store::{StorageError, StorageErrorView};
use crate::text::{optional_text, same_text};
use crate::text_set::TextSet;

verus! {

/// Why a catalog could not be made.
#[derive(Debug, PartialEq, Eq)]
pub struct CanvasCatalogError {
    /// A safe message.
    pub message: String,
}

/// Whether no two Canvases have the same identifier.
pub open spec fn have_distinct_ids(canvases: Seq<CanvasView>) -> bool {
    forall|i: int, j: int|
        0 <= i < j < canvases.len() ==> (#[trigger] canvases[i]).canvas_id != (
        #[trigger] canvases[j]).canvas_id
}

/// The Canvases by their identifiers.
pub open spec fn by_id(canvases: Seq<CanvasView>) -> Map<Seq<char>, CanvasView>
    decreases canvases.len(),
{
    if canvases.len() == 0 {
        Map::empty()
    } else {
        by_id(canvases.drop_last()).insert(canvases.last().canvas_id, canvases.last())
    }
}

/// Each of several Canvases with distinct identifiers is found under its identifier, and nothing
/// else is.
proof fn lemma_by_id(canvases: Seq<CanvasView>)
    requires
        have_distinct_ids(canvases),
    ensures
        by_id(canvases).dom().finite(),
        by_id(canvases).dom().len() == canvases.len(),
        forall|i: int|
            0 <= i < canvases.len() ==> by_id(canvases).dom().contains(
                (#[trigger] canvases[i]).canvas_id,
            ) && by_id(canvases)[canvases[i].canvas_id] == canvases[i],
        forall|id: Seq<char>| #[trigger]
            by_id(canvases).dom().contains(id) ==> exists|i: int|
                0 <= i < canvases.len() && (#[trigger] canvases[i]).canvas_id == id,
    decreases canvases.len(),
{
    if canvases.len() > 0 {
        let init = canvases.drop_last();
        let last = canvases.last();
        assert(have_distinct_ids(init)) by {
            assert forall|i: int, j: int| 0 <= i < j < init.len() implies (
            #[trigger] init[i]).canvas_id != (#[trigger] init[j]).canvas_id by {
                assert(init[i] == canvases[i]);
                assert(init[j] == canvases[j]);
            }
        }
        lemma_by_id(init);
        assert(!by_id(init).dom().contains(last.canvas_id)) by {
            if by_id(init).dom().contains(last.canvas_id) {
                let i = choose|i: int|
                    0 <= i < init.len() && (#[trigger] init[i]).canvas_id == last.canvas_id;
                assert(canvases[i].canvas_id != canvases[canvases.len() - 1].canvas_id);
            }
        }
        assert(by_id(canvases).dom() =~= by_id(init).dom().insert(last.canvas_id));
        assert forall|i: int| 0 <= i < canvases.len() implies by_id(canvases).dom().contains(
            (#[trigger] canvases[i]).canvas_id,
        ) && by_id(canvases)[canvases[i].canvas_id] == canvases[i] by {
            if i < canvases.len() - 1 {
                assert(init[i] == canvases[i]);
            }
        }
        assert forall|id: Seq<char>| #[trigger]
            by_id(canvases).dom().contains(id) implies exists|i: int|
            0 <= i < canvases.len() && (#[trigger] canvases[i]).canvas_id == id by {
            if id == last.canvas_id {
                assert(canvases[canvases.len() - 1].canvas_id == id);
            } else {
                let i = choose|i: int| 0 <= i < init.len() && (#[trigger] init[i]).canvas_id == id;
                assert(canvases[i].canvas_id == id);
            }
        }
    }
}

/// A development-only catalog containing trusted Canvas descriptors.
#[derive(Debug)]
pub struct DevelopmentCanvasCatalog {
    descriptors: Vec<CanvasDescriptor>,
}

impl View for DevelopmentCanvasCatalog {
    type V = Map<Seq<char>, CanvasView>;

    closed spec fn view(&self) -> Map<Seq<char>, CanvasView> {
        by_id(canvases_view(self.descriptors@))
    }
}

impl DevelopmentCanvasCatalog {
    /// No two descriptors have the same identifier.
    #[verifier::type_invariant]
    spec fn is_distinct(self) -> bool {
        have_distinct_ids(canvases_view(self.descriptors@))
    }

    /// Creates a catalog from one validated descriptor.
    pub fn new(descriptor: CanvasDescriptor) -> (r: DevelopmentCanvasCatalog)
        ensures
            r@ == Map::<Seq<char>, CanvasView>::empty().insert(descriptor@.canvas_id, descriptor@),
    {
        let mut descriptors: Vec<CanvasDescriptor> = Vec::new();
        descriptors.push(descriptor);
        proof {
            let all = canvases_view(descriptors@);
            assert(all.drop_last() =~= Seq::<CanvasView>::empty());
            assert(all.last() == descriptor@);
            reveal_with_fuel(by_id, 2);
        }
        DevelopmentCanvasCatalog { descriptors }
    }

    /// Creates a catalog from a complete descriptor set.
    ///
    /// Duplicate Canvas identities are rejected instead of being silently overwritten, which keeps
    /// bootstrap publication deterministic.
    pub fn from_descriptors(descriptors: Vec<CanvasDescriptor>) -> (r: Result<
        DevelopmentCanvasCatalog,
        CanvasCatalogError,
    >)
        ensures
            match r {
                Ok(catalog) => have_distinct_ids(canvases_view(descriptors@)) && catalog@ == by_id(
                    canvases_view(descriptors@),
                ),
                Err(error) => !have_distinct_ids(canvases_view(descriptors@)) && error.message@
                    == "duplicate Canvas identity"@,
            },
    {
        let ghost all = canvases_view(descriptors@);
        let mut j: usize = 0;
        while j < descriptors.len()
            invariant
                j <= descriptors@.len(),
                all == canvases_view(descriptors@),
                forall|a: int, b: int|
                    0 <= a < b < j ==> (#[trigger] all[a]).canvas_id != (
                    #[trigger] all[b]).canvas_id,
            decreases descriptors@.len() - j,
        {
            let mut i: usize = 0;
            while i < j
                invariant
                    i <= j < descriptors@.len(),
                    all == canvases_view(descriptors@),
                    forall|a: int| 0 <= a < i ==> (#[trigger] all[a]).canvas_id != all[j as int].canvas_id,
                decreases j - i,
            {
                assert(all[i as int] == descriptors@[i as int]@);
                assert(all[j as int] == descriptors@[j as int]@);
                if same_text(descriptors[i].canvas_id(), descriptors[j].canvas_id()) {
                    assert(!have_distinct_ids(all));
                    return Err(
                        CanvasCatalogError { message: "duplicate Canvas identity".to_owned() },
                    );
                }
                i = i + 1;
            }
            j = j + 1;
        }
        Ok(DevelopmentCanvasCatalog { descriptors })
    }

    /// Creates an empty catalog for non-Development processes.
    pub fn empty() -> (r: DevelopmentCanvasCatalog)
        ensures
            r@ == Map::<Seq<char>, CanvasView>::empty(),
    {
        DevelopmentCanvasCatalog { descriptors: Vec::new() }
    }

    /// Returns one descriptor of a catalog that has any.
    ///
    /// Callers that need to distinguish an empty catalog use [`Self::is_empty`] first, or
    /// [`Self::try_descriptor`].
    pub fn descriptor(&self) -> (r: &CanvasDescriptor)
        requires
            self@.dom().len() > 0,
        ensures
            self@.dom().contains(r@.canvas_id),
            self@[r@.canvas_id] == r@,
    {
        proof {
            use_type_invariant(self);
            lemma_by_id(canvases_view(self.descriptors@));
            assert(canvases_view(self.descriptors@)[0] == self.descriptors@[0]@);
        }
        &self.descriptors[0]
    }

    /// Returns one descriptor when the catalog is non-empty.
    pub fn try_descriptor(&self) -> (r: Option<&CanvasDescriptor>)
        ensures
            match r {
                Some(descriptor) => self@.dom().contains(descriptor@.canvas_id)
                    && self@[descriptor@.canvas_id] == descriptor@,
                None => self@ == Map::<Seq<char>, CanvasView>::empty(),
            },
    {
        if self.descriptors.len() == 0 {
            return None;
        }
        proof {
            use_type_invariant(self);
            lemma_by_id(canvases_view(self.descriptors@));
            assert(canvases_view(self.descriptors@)[0] == self.descriptors@[0]@);
        }
        Some(&self.descriptors[0])
    }

    /// Returns the number of registered descriptors.
    pub fn len(&self) -> (r: usize)
        ensures
            self@.dom().finite(),
            r == self@.dom().len(),
    {
        proof {
            use_type_invariant(self);
            lemma_by_id(canvases_view(self.descriptors@));
        }
        self.descriptors.len()
    }

    /// Reports whether no descriptors are registered.
    pub fn is_empty(&self) -> (r: bool)
        ensures
            r == (self@.dom().len() == 0),
    {
        proof {
            use_type_invariant(self);
            lemma_by_id(canvases_view(self.descriptors@));
        }
        self.descriptors.len() == 0
    }

    /// Returns the descriptor of a Canvas.
    pub fn get_canvas(&self, canvas_id: &str) -> (r: Option<&CanvasDescriptor>)
        ensures
            match r {
                Some(descriptor) => self@.dom().contains(canvas_id@) && self@[canvas_id@]
                    == descriptor@,
                None => !self@.dom().contains(canvas_id@),
            },
    {
        let ghost all = canvases_view(self.descriptors@);
        proof {
            use_type_invariant(self);
            lemma_by_id(all);
        }
        let mut i: usize = 0;
        while i < self.descriptors.len()
            invariant
                i <= self.descriptors@.len(),
                all == canvases_view(self.descriptors@),
                forall|j: int| 0 <= j < i ==> (#[trigger] all[j]).canvas_id != canvas_id@,
                forall|j: int|
                    0 <= j < all.len() ==> self@.dom().contains((#[trigger] all[j]).canvas_id)
                        && self@[all[j].canvas_id] == all[j],
            decreases self.descriptors@.len() - i,
        {
            assert(all[i as int] == self.descriptors@[i as int]@);
            if same_text(self.descriptors[i].canvas_id(), canvas_id) {
                return Some(&self.descriptors[i]);
            }
            i = i + 1;
        }
        None
    }
}

/// Identities for what a development Canvas is configured without.
#[derive(Debug)]
pub struct FreshIds {
    /// A Session identifier that nothing has.
    pub session_id: String,
    /// A Canvas identifier that nothing has.
    pub canvas_id: String,
    /// A Layer identifier that nothing has.
    pub layer_id: String,
}

/// The configured text, or the other where none is configured.
pub open spec fn configured_or(configured: Option<Seq<char>>, other: Seq<char>) -> Seq<char> {
    match configured {
        Some(text) => text,
        None => other,
    }
}

fn or_fresh(configured: Option<String>, fresh: String) -> (r: String)
    ensures
        r@ == configured_or(optional_text(configured), fresh@),
{
    match configured {
        Some(text) => text,
        None => fresh,
    }
}

/// The width and the height make no Canvas space.
#[derive(Clone, Copy, Debug, PartialEq, Eq, Structural)]
pub struct CanvasSpaceError;

/// Describes the development Canvas: its identities are the configured ones, and fresh ones where
/// none are configured; its one Layer is its default Layer. `accepted` tells whether width and
/// height make a Canvas space.
pub fn development_canvas_descriptor(
    session_id: Option<String>,
    canvas_id: Option<String>,
    layer_id: Option<String>,
    width: Dimension,
    height: Dimension,
    fresh: FreshIds,
    accepted: bool,
) -> (r: Result<CanvasDescriptor, CanvasSpaceError>)
    ensures
        match r {
            Ok(canvas) => {
                let layer = configured_or(optional_text(layer_id), fresh.layer_id@);
                accepted && canvas@ == CanvasView {
                    canvas_id: configured_or(optional_text(canvas_id), fresh.canvas_id@),
                    session_id: configured_or(optional_text(session_id), fresh.session_id@),
                    width,
                    height,
                    layer_ids: set![layer],
                    default_layer_id: layer,
                }
            },
            Err(_) => !accepted,
        },
{
    let layer = or_fresh(layer_id, fresh.layer_id);
    let none = TextSet::new();
    let layer_ids = none.insert(layer.clone());
    assert(layer_ids@ =~= set![layer@]);
    match CanvasDescriptor::new(
        or_fresh(canvas_id, fresh.canvas_id),
        or_fresh(session_id, fresh.session_id),
        width,
        height,
        layer_ids,
        layer,
        accepted,
    ) {
        Some(canvas) => Ok(canvas),
        None => Err(CanvasSpaceError),
    }
}

/// What the payload of a stored Event was read as.
#[derive(Debug)]
pub enum StrokeReading {
    /// The Event is no Canvas Event.
    Unrelated,
    /// The Event is a Canvas Event whose payload is not one of its type.
    Corrupted,
    /// The Event belongs to the Stroke of the Canvas.
    Stroke {
        /// The Canvas.
        canvas_id: String,
        /// The Stroke.
        stroke_id: String,
    },
}

/// The contents of [`StrokeReading`].
pub enum StrokeReadingView {
    /// The Event is no Canvas Event.
    Unrelated,
    /// The Event is a Canvas Event whose payload is not one of its type.
    Corrupted,
    /// The Canvas and the Stroke that the Event belongs to.
    Stroke(Seq<char>, Seq<char>),
}

impl View for StrokeReading {
    type V = StrokeReadingView;

    open spec fn view(&self) -> StrokeReadingView {
        match *self {
            StrokeReading::Unrelated => StrokeReadingView::Unrelated,
            StrokeReading::Corrupted => StrokeReadingView::Corrupted,
            StrokeReading::Stroke { canvas_id, stroke_id } => StrokeReadingView::Stroke(
                canvas_id@,
                stroke_id@,
            ),
        }
    }
}

/// The contents of a list of readings.
pub open spec fn readings_view(readings: Seq<StrokeReading>) -> Seq<StrokeReadingView> {
    Seq::new(readings.len(), |i: int| readings[i]@)
}

/// The indexes below `end` of the Events that belong to the Stroke, in their order.
pub open spec fn stroke_indexes(
    readings: Seq<StrokeReadingView>,
    canvas_id: Seq<char>,
    stroke_id: Seq<char>,
    end: int,
) -> Seq<int>
    decreases end,
{
    if end <= 0 {
        Seq::empty()
    } else if readings[end - 1] == StrokeReadingView::Stroke(canvas_id, stroke_id) {
        stroke_indexes(readings, canvas_id, stroke_id, end - 1).push(end - 1)
    } else {
        stroke_indexes(readings, canvas_id, stroke_id, end - 1)
    }
}

/// The index of the first corrupted Event at or after `index`, or the number of Events.
pub open spec fn first_corrupted(readings: Seq<StrokeReadingView>, index: int) -> int
    decreases readings.len() - index,
{
    if index < 0 || index >= readings.len() {
        readings.len() as int
    } else if readings[index] is Corrupted {
        index
    } else {
        first_corrupted(readings, index + 1)
    }
}

/// Which Events of a page are applied to the projection of a Stroke.
#[derive(Debug)]
pub struct StrokePlan {
    /// The indexes of the Events to apply, in this order.
    pub apply: Vec<usize>,
    /// Whether a corrupted Event follows, at which the replay fails.
    pub corrupted: bool,
}

/// The indexes of a plan.
pub open spec fn indexes_view(indexes: Seq<usize>) -> Seq<int> {
    Seq::new(indexes.len(), |i: int| indexes[i] as int)
}

/// Plans which Events of a page are applied to the projection of a Stroke: those that belong to it,
/// up to the first corrupted Canvas Event.
pub fn load_stroke(readings: &[StrokeReading], canvas_id: &str, stroke_id: &str) -> (r: StrokePlan)
    ensures
        ({
            let all = readings_view(readings@);
            &&& r.corrupted == (first_corrupted(all, 0) < all.len())
            &&& indexes_view(r.apply@) == stroke_indexes(
                all,
                canvas_id@,
                stroke_id@,
                first_corrupted(all, 0),
            )
        }),
{
    let ghost all = readings_view(readings@);
    let mut apply: Vec<usize> = Vec::new();
    let mut i: usize = 0;
    assert(indexes_view(apply@) =~= Seq::<int>::empty());
    while i < readings.len()
        invariant
            i <= readings@.len(),
            all == readings_view(readings@),
            first_corrupted(all, 0) == first_corrupted(all, i as int),
            indexes_view(apply@) == stroke_indexes(all, canvas_id@, stroke_id@, i as int),
        decreases readings@.len() - i,
    {
        assert(all[i as int] == readings@[i as int]@);
        match &readings[i] {
            StrokeReading::Unrelated => {},
            StrokeReading::Corrupted => {
                return StrokePlan { apply, corrupted: true };
            },
            StrokeReading::Stroke { canvas_id: canvas, stroke_id: stroke } => {
                if same_text(canvas.as_str(), canvas_id) && same_text(stroke.as_str(), stroke_id) {
                    let ghost before = indexes_view(apply@);
                    apply.push(i);
                    assert(indexes_view(apply@) =~= before.push(i as int));
                }
            },
        }
        i = i + 1;
    }
    StrokePlan { apply, corrupted: false }
}

/// What is told of an EventStore that could not be read.
pub open spec fn storage_detail(error: StorageErrorView) -> Seq<char> {
    match error {
        StorageErrorView::BackendUnavailable(message) => message,
        StorageErrorView::BackendFailure(message) => message,
        _ => "event store query failed"@,
    }
}

/// Returns what is told of an EventStore that could not be read.
pub fn map_storage_error(error: StorageError) -> (r: String)
    ensures
        r@ == storage_detail(error@),
{
    match error {
        StorageError::BackendUnavailable { message } => message,
        StorageError::BackendFailure { message } => message,
        _ => "event store query failed".to_owned(),
    }
}

/// Every Event of the Stroke that comes before the first corrupted Event is applied, and nothing
/// else is; the Events are applied in the order in which they were appended.
pub proof fn law_replay_applies_exactly_the_stroke(
    readings: Seq<StrokeReadingView>,
    canvas_id: Seq<char>,
    stroke_id: Seq<char>,
    end: int,
    k: int,
)
    requires
        0 <= end <= readings.len(),
        0 <= k,
    ensures
        stroke_indexes(readings, canvas_id, stroke_id, end).contains(k) <==> k < end && readings[k]
            == StrokeReadingView::Stroke(canvas_id, stroke_id),
        forall|i: int, j: int|
            0 <= i < j < stroke_indexes(readings, canvas_id, stroke_id, end).len() ==> (
            #[trigger] stroke_indexes(readings, canvas_id, stroke_id, end)[i]) < (
            #[trigger] stroke_indexes(readings, canvas_id, stroke_id, end)[j]),
        forall|i: int|
            0 <= i < stroke_indexes(readings, canvas_id, stroke_id, end).len() ==> 0 <= (
            #[trigger] stroke_indexes(readings, canvas_id, stroke_id, end)[i]) < end,
    decreases end,
{
    let all = stroke_indexes(readings, canvas_id, stroke_id, end);
    if end > 0 {
        let init = stroke_indexes(readings, canvas_id, stroke_id, end - 1);
        law_replay_applies_exactly_the_stroke(readings, canvas_id, stroke_id, end - 1, k);
        if readings[end - 1] == StrokeReadingView::Stroke(canvas_id, stroke_id) {
            assert(all[init.len() as int] == end - 1);
            if init.contains(k) {
                let i = choose|i: int| 0 <= i < init.len() && init[i] == k;
                assert(all[i] == k);
            }
            if all.contains(k) {
                let i = choose|i: int| 0 <= i < all.len() && all[i] == k;
                if i < init.len() {
                    assert(init[i] == k);
                }
            }
        }
    }
}

/// Where no Event from `index` on is corrupted in the first page, the first corrupted one of both
/// is that of the second.
proof fn lemma_first_corrupted(
    first: Seq<StrokeReadingView>,
    rest: Seq<StrokeReadingView>,
    index: int,
)
    requires
        0 <= index <= first.len() + rest.len(),
        index <= first.len() ==> first_corrupted(first, index) == first.len(),
    ensures
        index <= first.len() ==> first_corrupted(first + rest, index) == first.len()
            + first_corrupted(rest, 0),
        index >= first.len() ==> first_corrupted(first + rest, index) == first.len()
            + first_corrupted(rest, index - first.len()),
    decreases first.len() + rest.len() - index,
{
    let all = first + rest;
    if index < all.len() {
        if index < first.len() {
            assert(all[index] == first[index]);
        } else {
            assert(all[index] == rest[index - first.len()]);
        }
        lemma_first_corrupted(first, rest, index + 1);
    }
}

/// The indexes of both pages are those of the first, then those of the second behind them.
proof fn lemma_stroke_indexes(
    first: Seq<StrokeReadingView>,
    rest: Seq<StrokeReadingView>,
    canvas_id: Seq<char>,
    stroke_id: Seq<char>,
    end: int,
)
    requires
        0 <= end <= first.len() + rest.len(),
    ensures
        end <= first.len() ==> stroke_indexes(first + rest, canvas_id, stroke_id, end)
            == stroke_indexes(first, canvas_id, stroke_id, end),
        end >= first.len() ==> stroke_indexes(first + rest, canvas_id, stroke_id, end)
            == stroke_indexes(first, canvas_id, stroke_id, first.len() as int) + behind(
            stroke_indexes(rest, canvas_id, stroke_id, end - first.len()),
            first.len() as int,
        ),
    decreases end,
{
    let all = first + rest;
    let head = stroke_indexes(first, canvas_id, stroke_id, first.len() as int);
    if end > 0 {
        lemma_stroke_indexes(first, rest, canvas_id, stroke_id, end - 1);
        if end <= first.len() {
            assert(all[end - 1] == first[end - 1]);
        } else {
            assert(all[end - 1] == rest[end - 1 - first.len()]);
            let tail = stroke_indexes(rest, canvas_id, stroke_id, end - 1 - first.len());
            assert(head + behind(tail.push(end - 1 - first.len()), first.len() as int) =~= (head
                + behind(tail, first.len() as int)).push(end - 1));
        }
    }
    if end == first.len() {
        assert(head + behind(Seq::<int>::empty(), first.len() as int) =~= head);
    }
}

/// The indexes of a page behind `offset` other Events.
pub open spec fn behind(indexes: Seq<int>, offset: int) -> Seq<int> {
    Seq::new(indexes.len(), |i: int| indexes[i] + offset)
}

/// A replay may go page by page: where no Event of a page is corrupted, the plan of the pages
/// together is the plan of that page, then the plan of the rest.
pub proof fn law_replay_goes_page_by_page(
    first: Seq<StrokeReadingView>,
    rest: Seq<StrokeReadingView>,
    canvas_id: Seq<char>,
    stroke_id: Seq<char>,
)
    requires
        first_corrupted(first, 0) == first.len(),
    ensures
        first_corrupted(first + rest, 0) == first.len() + first_corrupted(rest, 0),
        stroke_indexes(first + rest, canvas_id, stroke_id, first_corrupted(first + rest, 0))
            == stroke_indexes(first, canvas_id, stroke_id, first.len() as int) + behind(
            stroke_indexes(rest, canvas_id, stroke_id, first_corrupted(rest, 0)),
            first.len() as int,
        ),
{
    lemma_first_corrupted(first, rest, 0);
    lemma_first_corrupted_in_range(rest, 0);
    lemma_stroke_indexes(
        first,
        rest,
        canvas_id,
        stroke_id,
        first.len() + first_corrupted(rest, 0),
    );
}

/// The first corrupted Event is one of the Events, or their number.
proof fn lemma_first_corrupted_in_range(readings: Seq<StrokeReadingView>, index: int)
    requires
        0 <= index <= readings.len(),
    ensures
        index <= first_corrupted(readings, index) <= readings.len(),
    decreases readings.len() - index,
{
    if index < readings.len() && !(readings[index] is Corrupted) {
        lemma_first_corrupted_in_range(readings, index + 1);
    }
}

/// An entry of the keyed execution coordinator: the lock of one scope.
#[derive(Debug)]
pub struct CoordinatorEntry {
    /// The scope.
    pub scope: String,
    /// The number that tells this lock from every other.
    pub id: u64,
    /// Whether a lease or a waiter still holds the lock.
    pub live: bool,
}

/// The contents of [`CoordinatorEntry`].
pub struct EntryView {
    /// The scope.
    pub scope: Seq<char>,
    /// The number that tells this lock from every other.
    pub id: int,
    /// Whether a lease or a waiter still holds the lock.
    pub live: bool,
}

impl View for CoordinatorEntry {
    type V = EntryView;

    open spec fn view(&self) -> EntryView {
        EntryView { scope: self.scope@, id: self.id as int, live: self.live }
    }
}

/// The contents of a list of entries.
pub open spec fn entries_view(entries: Seq<CoordinatorEntry>) -> Seq<EntryView> {
    Seq::new(entries.len(), |i: int| entries[i]@)
}

/// The entries that are held.
pub open spec fn live_entries(entries: Seq<EntryView>) -> Seq<EntryView>
    decreases entries.len(),
{
    if entries.len() == 0 {
        Seq::empty()
    } else if entries.last().live {
        live_entries(entries.drop_last()).push(entries.last())
    } else {
        live_entries(entries.drop_last())
    }
}

/// The number of the lock of a scope.
pub open spec fn lock_of(entries: Seq<EntryView>, scope: Seq<char>) -> Option<int>
    decreases entries.len(),
{
    if entries.len() == 0 {
        None
    } else if entries.last().scope == scope {
        Some(entries.last().id)
    } else {
        lock_of(entries.drop_last(), scope)
    }
}

/// The entries without the one of the scope, if it is the lock with the number.
pub open spec fn without_entry(entries: Seq<EntryView>, scope: Seq<char>, id: int) -> Seq<EntryView>
    decreases entries.len(),
{
    if entries.len() == 0 {
        Seq::empty()
    } else if entries.last().scope == scope && entries.last().id == id {
        without_entry(entries.drop_last(), scope, id)
    } else {
        without_entry(entries.drop_last(), scope, id).push(entries.last())
    }
}

/// The entries with the lock of the number no longer held.
pub open spec fn with_expired(entries: Seq<EntryView>, id: int) -> Seq<EntryView> {
    Seq::new(
        entries.len(),
        |i: int|
            if entries[i].id == id {
                EntryView { live: false, ..entries[i] }
            } else {
                entries[i]
            },
    )
}

/// The locks of the keyed, in-process coordinator of aggregate scopes.
#[derive(Debug)]
pub struct TokioExecutionCoordinator {
    entries: Vec<CoordinatorEntry>,
    next_id: u64,
}

impl View for TokioExecutionCoordinator {
    type V = Seq<EntryView>;

    closed spec fn view(&self) -> Seq<EntryView> {
        entries_view(self.entries@)
    }
}

impl TokioExecutionCoordinator {
    /// The number of the next new lock.
    pub closed spec fn spec_next_id(self) -> int {
        self.next_id as int
    }

    /// Creates an empty coordinator.
    pub fn new() -> (r: TokioExecutionCoordinator)
        ensures
            r@ == Seq::<EntryView>::empty(),
            r.spec_next_id() == 0,
    {
        let entries: Vec<CoordinatorEntry> = Vec::new();
        assert(entries_view(entries@) =~= Seq::<EntryView>::empty());
        TokioExecutionCoordinator { entries, next_id: 0 }
    }

    /// Drops the entries that nobody holds.
    fn prune_stale(&mut self)
        ensures
            final(self)@ == live_entries(old(self)@),
            final(self).spec_next_id() == old(self).spec_next_id(),
    {
        let ghost all = self@;
        let mut kept: Vec<CoordinatorEntry> = Vec::new();
        let mut i: usize = 0;
        assert(all.take(0) =~= Seq::<EntryView>::empty());
        assert(entries_view(kept@) =~= Seq::<EntryView>::empty());
        while i < self.entries.len()
            invariant
                i <= self.entries@.len(),
                all == entries_view(self.entries@),
                *self == *old(self),
                entries_view(kept@) == live_entries(all.take(i as int)),
            decreases self.entries@.len() - i,
        {
            assert(all[i as int] == self.entries@[i as int]@);
            assert(all.take(i + 1).drop_last() =~= all.take(i as int));
            assert(all.take(i + 1).last() == all[i as int]);
            if self.entries[i].live {
                let ghost before = entries_view(kept@);
                let entry = CoordinatorEntry {
                    scope: self.entries[i].scope.clone(),
                    id: self.entries[i].id,
                    live: true,
                };
                kept.push(entry);
                assert(entries_view(kept@) =~= before.push(all[i as int]));
            }
            i = i + 1;
        }
        assert(all.take(i as int) =~= all);
        self.entries = kept;
    }

    /// Returns the number of keys after pruning stale entries.
    pub fn key_count(&mut self) -> (r: usize)
        ensures
            final(self)@ == live_entries(old(self)@),
            final(self).spec_next_id() == old(self).spec_next_id(),
            r == final(self)@.len(),
    {
        self.prune_stale();
        self.entries.len()
    }

    /// Returns the number of the lock of a scope: that of the lock that is held, and otherwise that
    /// of a new one.
    pub fn acquire(&mut self, scope: &str) -> (r: u64)
        requires
            old(self).spec_next_id() < u64::MAX,
        ensures
            ({
                let live = live_entries(old(self)@);
                match lock_of(live, scope@) {
                    Some(id) => r == id && final(self)@ == live && final(self).spec_next_id()
                        == old(self).spec_next_id(),
                    None => r == old(self).spec_next_id() && final(self)@ == live.push(
                        EntryView { scope: scope@, id: r as int, live: true },
                    ) && final(self).spec_next_id() == old(self).spec_next_id() + 1,
                }
            }),
    {
        self.prune_stale();
        let ghost live = self@;
        let mut i: usize = self.entries.len();
        assert(live.take(i as int) =~= live);
        while i > 0
            invariant
                i <= self.entries@.len(),
                live == entries_view(self.entries@),
                live == live_entries(old(self)@),
                self.spec_next_id() == old(self).spec_next_id(),
                old(self).spec_next_id() < u64::MAX,
                lock_of(live, scope@) == lock_of(live.take(i as int), scope@),
            decreases i,
        {
            assert(live.take(i as int).last() == self.entries@[i - 1]@);
            assert(live.take(i as int).drop_last() =~= live.take(i - 1));
            if same_text(self.entries[i - 1].scope.as_str(), scope) {
                return self.entries[i - 1].id;
            }
            i = i - 1;
        }
        let id: u64 = self.next_id;
        self.next_id = id + 1;
        self.entries.push(CoordinatorEntry { scope: scope.to_owned(), id, live: true });
        assert(self@ =~= live.push(EntryView { scope: scope@, id: id as int, live: true }));
        id
    }

    /// Notes that nobody holds the lock with the number any more.
    pub fn expire(&mut self, id: u64)
        ensures
            final(self)@ == with_expired(old(self)@, id as int),
            final(self).spec_next_id() == old(self).spec_next_id(),
    {
        let ghost all = self@;
        let mut i: usize = 0;
        let n: usize = self.entries.len();
        while i < n
            invariant
                i <= n,
                n == self.entries@.len(),
                n == all.len(),
                self.spec_next_id() == old(self).spec_next_id(),
                forall|j: int|
                    0 <= j < n ==> #[trigger] self.entries@[j]@ == if j < i {
                        with_expired(all, id as int)[j]
                    } else {
                        all[j]
                    },
            decreases n - i,
        {
            assert(self.entries@[i as int]@ == all[i as int]);
            let ghost before = self.entries@;
            if self.entries[i].id == id {
                let entry = CoordinatorEntry {
                    scope: self.entries[i].scope.clone(),
                    id,
                    live: false,
                };
                self.entries[i] = entry;
                assert(entry@ == with_expired(all, id as int)[i as int]);
            }
            assert forall|j: int| 0 <= j < n implies #[trigger] self.entries@[j]@ == if j < i + 1 {
                with_expired(all, id as int)[j]
            } else {
                all[j]
            } by {
                if j != i {
                    assert(self.entries@[j] == before[j]);
                }
            }
            i = i + 1;
        }
        assert(self@ =~= with_expired(all, id as int));
    }

    /// Removes the entry of a scope, if it still is the lock with the number.
    pub fn cleanup(&mut self, scope: &str, id: u64)
        ensures
            final(self)@ == without_entry(old(self)@, scope@, id as int),
            final(self).spec_next_id() == old(self).spec_next_id(),
    {
        let ghost all = self@;
        let mut kept: Vec<CoordinatorEntry> = Vec::new();
        let mut i: usize = 0;
        assert(all.take(0) =~= Seq::<EntryView>::empty());
        assert(entries_view(kept@) =~= Seq::<EntryView>::empty());
        while i < self.entries.len()
            invariant
                i <= self.entries@.len(),
                all == entries_view(self.entries@),
                *self == *old(self),
                entries_view(kept@) == without_entry(all.take(i as int), scope@, id as int),
            decreases self.entries@.len() - i,
        {
            assert(all[i as int] == self.entries@[i as int]@);
            assert(all.take(i + 1).drop_last() =~= all.take(i as int));
            assert(all.take(i + 1).last() == all[i as int]);
            if !(self.entries[i].id == id && same_text(self.entries[i].scope.as_str(), scope)) {
                let ghost before = entries_view(kept@);
                let entry = CoordinatorEntry {
                    scope: self.entries[i].scope.clone(),
                    id: self.entries[i].id,
                    live: self.entries[i].live,
                };
                kept.push(entry);
                assert(entries_view(kept@) =~= before.push(all[i as int]));
            }
            i = i + 1;
        }
        assert(all.take(i as int) =~= all);
        self.entries = kept;
    }
}

/// The cleanup of an old lock cannot remove the entry that replaced it: where no entry is the lock
/// with the number, nothing changes.
pub proof fn law_old_cleanup_spares_a_replacement(
    entries: Seq<EntryView>,
    scope: Seq<char>,
    id: int,
)
    requires
        forall|i: int|
            0 <= i < entries.len() ==> !((#[trigger] entries[i]).scope == scope && entries[i].id
                == id),
    ensures
        without_entry(entries, scope, id) == entries,
    decreases entries.len(),
{
    if entries.len() > 0 {
        let init = entries.drop_last();
        assert forall|i: int| 0 <= i < init.len() implies !((#[trigger] init[i]).scope == scope
            && init[i].id == id) by {
            assert(init[i] == entries[i]);
        }
        assert(!(entries[entries.len() - 1].scope == scope && entries[entries.len() - 1].id == id));
        law_old_cleanup_spares_a_replacement(init, scope, id);
        assert(init.push(entries.last()) =~= entries);
    } else {
        assert(without_entry(entries, scope, id) =~= entries);
    }
}

/// Whether no scope has two locks.
pub open spec fn have_distinct_scopes(entries: Seq<EntryView>) -> bool {
    forall|a: int, b: int|
        0 <= a < b < entries.len() ==> (#[trigger] entries[a]).scope != (
        #[trigger] entries[b]).scope
}

/// Pruning keeps the order of the entries that it keeps, and adds none.
proof fn lemma_live_entries(entries: Seq<EntryView>)
    requires
        have_distinct_scopes(entries),
    ensures
        have_distinct_scopes(live_entries(entries)),
        forall|k: int|
            0 <= k < live_entries(entries).len() ==> entries.contains(
                #[trigger] live_entries(entries)[k],
            ),
    decreases entries.len(),
{
    if entries.len() > 0 {
        let init = entries.drop_last();
        let last = entries.last();
        assert forall|a: int, b: int| 0 <= a < b < init.len() implies (#[trigger] init[a]).scope
            != (#[trigger] init[b]).scope by {
            assert(init[a] == entries[a]);
            assert(init[b] == entries[b]);
        }
        lemma_live_entries(init);
        let live = live_entries(entries);
        assert forall|k: int| 0 <= k < live.len() implies entries.contains(#[trigger] live[k]) by {
            if k < live_entries(init).len() {
                assert(init.contains(live_entries(init)[k]));
                let j = choose|j: int| 0 <= j < init.len() && init[j] == live_entries(init)[k];
                assert(entries[j] == live[k]);
            } else {
                assert(entries[entries.len() - 1] == live[k]);
            }
        }
        assert forall|a: int, b: int| 0 <= a < b < live.len() implies (#[trigger] live[a]).scope
            != (#[trigger] live[b]).scope by {
            assert(live[a] == live_entries(init)[a]);
            if b < live_entries(init).len() {
                assert(live[b] == live_entries(init)[b]);
            } else {
                let j = choose|j: int| 0 <= j < init.len() && init[j] == live_entries(init)[a];
                assert(entries[j].scope != entries[entries.len() - 1].scope);
            }
        }
    }
}

/// A scope without a lock is the scope of no entry.
proof fn lemma_lock_of(entries: Seq<EntryView>, scope: Seq<char>)
    requires
        lock_of(entries, scope) is None,
    ensures
        forall|i: int| 0 <= i < entries.len() ==> (#[trigger] entries[i]).scope != scope,
    decreases entries.len(),
{
    if entries.len() > 0 {
        lemma_lock_of(entries.drop_last(), scope);
        assert forall|i: int| 0 <= i < entries.len() implies (#[trigger] entries[i]).scope
            != scope by {
            if i < entries.len() - 1 {
                assert(entries.drop_last()[i] == entries[i]);
            }
        }
    }
}

/// Removing an entry keeps the order of the others, and adds none.
proof fn lemma_without_entry(entries: Seq<EntryView>, scope: Seq<char>, id: int)
    requires
        have_distinct_scopes(entries),
    ensures
        have_distinct_scopes(without_entry(entries, scope, id)),
        forall|k: int|
            0 <= k < without_entry(entries, scope, id).len() ==> entries.contains(
                #[trigger] without_entry(entries, scope, id)[k],
            ),
    decreases entries.len(),
{
    if entries.len() > 0 {
        let init = entries.drop_last();
        assert forall|a: int, b: int| 0 <= a < b < init.len() implies (#[trigger] init[a]).scope
            != (#[trigger] init[b]).scope by {
            assert(init[a] == entries[a]);
            assert(init[b] == entries[b]);
        }
        lemma_without_entry(init, scope, id);
        let before = without_entry(init, scope, id);
        let after = without_entry(entries, scope, id);
        assert forall|k: int| 0 <= k < after.len() implies entries.contains(#[trigger] after[k]) by {
            if k < before.len() {
                assert(init.contains(before[k]));
                let j = choose|j: int| 0 <= j < init.len() && init[j] == before[k];
                assert(entries[j] == after[k]);
            } else {
                assert(entries[entries.len() - 1] == after[k]);
            }
        }
        assert forall|a: int, b: int| 0 <= a < b < after.len() implies (#[trigger] after[a]).scope
            != (#[trigger] after[b]).scope by {
            assert(after[a] == before[a]);
            if b < before.len() {
                assert(after[b] == before[b]);
            } else {
                let j = choose|j: int| 0 <= j < init.len() && init[j] == before[a];
                assert(entries[j].scope != entries[entries.len() - 1].scope);
            }
        }
    }
}

/// No scope ever has two locks: not after a new one was made, not after one was given up, and not
/// after stale ones were dropped.
pub proof fn law_scopes_stay_distinct(entries: Seq<EntryView>, scope: Seq<char>, id: int)
    requires
        have_distinct_scopes(entries),
    ensures
        have_distinct_scopes(live_entries(entries)),
        lock_of(live_entries(entries), scope) is None ==> have_distinct_scopes(
            live_entries(entries).push(EntryView { scope, id, live: true }),
        ),
        have_distinct_scopes(with_expired(entries, id)),
        have_distinct_scopes(without_entry(entries, scope, id)),
{
    lemma_live_entries(entries);
    let live = live_entries(entries);
    if lock_of(live, scope) is None {
        lemma_lock_of(live, scope);
        let after = live.push(EntryView { scope, id, live: true });
        assert forall|a: int, b: int| 0 <= a < b < after.len() implies (#[trigger] after[a]).scope
            != (#[trigger] after[b]).scope by {
            assert(after[a] == live[a]);
            if b < live.len() {
                assert(after[b] == live[b]);
            }
        }
    }
    let expired = with_expired(entries, id);
    assert forall|a: int, b: int| 0 <= a < b < expired.len() implies (#[trigger] expired[a]).scope
        != (#[trigger] expired[b]).scope by {
        assert(entries[a].scope != entries[b].scope);
    }
    lemma_without_entry(entries, scope, id);
}

/// Executions of one scope share one lock as long as it is held, and those of other scopes do not
/// take part in it: acquiring a scope whose lock is held gives that lock again.
pub proof fn law_held_locks_are_shared(entries: Seq<EntryView>, scope: Seq<char>, i: int)
    requires
        have_distinct_scopes(entries),
        0 <= i < entries.len(),
        entries[i].scope == scope,
        entries[i].live,
    ensures
        lock_of(live_entries(entries), scope) == Some(entries[i].id),
    decreases entries.len(),
{
    let init = entries.drop_last();
    let last = entries.last();
    if i < entries.len() - 1 {
        assert(entries[i].scope != entries[entries.len() - 1].scope);
        assert forall|a: int, b: int| 0 <= a < b < init.len() implies (#[trigger] init[a]).scope
            != (#[trigger] init[b]).scope by {
            assert(init[a] == entries[a]);
            assert(init[b] == entries[b]);
        }
        assert(init[i] == entries[i]);
        law_held_locks_are_shared(init, scope, i);
    }
    if last.live {
        let live = live_entries(init).push(last);
        assert(live.drop_last() =~= live_entries(init));
        assert(live.last() == last);
    }
}

/// A replay stops at the first corrupted Event: everything before it can be read, and where no
/// Event is corrupted it goes to the end.
pub proof fn law_replay_stops_at_the_first_corrupted_event(readings: Seq<StrokeReadingView>)
    ensures
        ({
            let end = first_corrupted(readings, 0);
            &&& 0 <= end <= readings.len()
            &&& forall|i: int| 0 <= i < end ==> !((#[trigger] readings[i]) is Corrupted)
            &&& end < readings.len() ==> readings[end] is Corrupted
        }),
{
    lemma_first_corrupted_at(readings, 0);
}

proof fn lemma_first_corrupted_at(readings: Seq<StrokeReadingView>, index: int)
    requires
        0 <= index <= readings.len(),
    ensures
        ({
            let end = first_corrupted(readings, index);
            &&& index <= end <= readings.len()
            &&& forall|i: int| index <= i < end ==> !((#[trigger] readings[i]) is Corrupted)
            &&& end < readings.len() ==> readings[end] is Corrupted
        }),
    decreases readings.len() - index,
{
    if index < readings.len() && !(readings[index] is Corrupted) {
        lemma_first_corrupted_at(readings, index + 1);
    }
}

/// A catalog of Canvases with distinct identifiers holds each of them under its identifier, and no
/// other.
pub proof fn law_catalog_holds_its_canvases(canvases: Seq<CanvasView>, id: Seq<char>)
    requires
        have_distinct_ids(canvases),
    ensures
        by_id(canvases).dom().contains(id) <==> exists|i: int|
            0 <= i < canvases.len() && (#[trigger] canvases[i]).canvas_id == id,
        forall|i: int|
            0 <= i < canvases.len() ==> by_id(canvases)[(#[trigger] canvases[i]).canvas_id]
                == canvases[i],
        by_id(canvases).dom().len() == canvases.len(),
{
    lemma_by_id(canvases);
}

/// A configured identifier is taken as it is, and a fresh one only where none is configured.
pub proof fn law_configured_identifiers_are_kept(configured: Seq<char>, fresh: Seq<char>)
    ensures
        configured_or(Some(configured), fresh) == configured,
        configured_or(None, fresh) == fresh,
{
}

/// What is told of an EventStore that could not be read: its own message where it could not be
/// reached or failed, and nothing of the query otherwise.
pub proof fn law_storage_detail(message: Seq<char>)
    ensures
        storage_detail(StorageErrorView::BackendUnavailable(message)) == message,
        storage_detail(StorageErrorView::BackendFailure(message)) == message,
        storage_detail(StorageErrorView::InvalidQuery(message)) == "event store query failed"@,
        storage_detail(StorageErrorView::InvalidCursor(message)) == "event store query failed"@,
        storage_detail(StorageErrorView::InvalidCheckpoint(message)) == "event store query failed"@,
        storage_detail(StorageErrorView::EventConflict(message)) == "event store query failed"@,
{
}

/// A lock that nobody holds is dropped, one that is held stays, and the order of the others does
/// not change.
pub proof fn law_only_held_locks_stay(entries: Seq<EntryView>, entry: EntryView)
    ensures
        live_entries(Seq::empty()) == Seq::<EntryView>::empty(),
        live_entries(entries.push(entry)) == if entry.live {
            live_entries(entries).push(entry)
        } else {
            live_entries(entries)
        },
{
    assert(entries.push(entry).drop_last() =~= entries);
}

/// A lock is that of its scope: what is found for a scope is the number of an entry with that
/// scope, and a scope without an entry has none. So no two scopes share a lock as long as no two
/// entries share a number.
pub proof fn law_locks_belong_to_their_scope(entries: Seq<EntryView>, scope: Seq<char>)
    ensures
        match lock_of(entries, scope) {
            Some(id) => exists|i: int|
                0 <= i < entries.len() && (#[trigger] entries[i]).scope == scope && entries[i].id
                    == id,
            None => forall|i: int| 0 <= i < entries.len() ==> (#[trigger] entries[i]).scope
                != scope,
        },
    decreases entries.len(),
{
    if entries.len() > 0 {
        let init = entries.drop_last();
        law_locks_belong_to_their_scope(init, scope);
        assert(entries[entries.len() - 1] == entries.last());
        if entries.last().scope != scope {
            match lock_of(init, scope) {
                Some(id) => {
                    let i = choose|i: int|
                        0 <= i < init.len() && (#[trigger] init[i]).scope == scope && init[i].id
                            == id;
                    assert(entries[i] == init[i]);
                },
                None => {
                    assert forall|i: int| 0 <= i < entries.len() implies (
                    #[trigger] entries[i]).scope != scope by {
                        if i < init.len() {
                            assert(init[i] == entries[i]);
                        }
                    }
                },
            }
        }
    }
}

/// Giving a lock up marks exactly the entries with its number, and cleaning it up takes away
/// exactly the entry of that scope and that number.
pub proof fn law_locks_are_given_up_by_their_number(
    entries: Seq<EntryView>,
    entry: EntryView,
    scope: Seq<char>,
    id: int,
)
    ensures
        with_expired(entries, id).len() == entries.len(),
        forall|i: int|
            0 <= i < entries.len() ==> {
                let after = #[trigger] with_expired(entries, id)[i];
                &&& after.scope == entries[i].scope
                &&& after.id == entries[i].id
                &&& after.live == (entries[i].live && entries[i].id != id)
            },
        without_entry(entries.push(entry), scope, id) == if entry.scope == scope && entry.id == id {
            without_entry(entries, scope, id)
        } else {
            without_entry(entries, scope, id).push(entry)
        },
        without_entry(Seq::empty(), scope, id) == Seq::<EntryView>::empty(),
{
    assert(entries.push(entry).drop_last() =~= entries);
}

/// Lists of readings, of entries and of indexes show what they hold, in their order.
pub proof fn law_views_of_readings(
    readings: Seq<StrokeReading>,
    entries: Seq<CoordinatorEntry>,
    indexes: Seq<usize>,
)
    ensures
        readings_view(readings).len() == readings.len(),
        forall|i: int| 0 <= i < readings.len() ==> #[trigger] readings_view(readings)[i]
            == readings[i]@,
        entries_view(entries).len() == entries.len(),
        forall|i: int| 0 <= i < entries.len() ==> #[trigger] entries_view(entries)[i]
            == entries[i]@,
        indexes_view(indexes).len() == indexes.len(),
        forall|i: int| 0 <= i < indexes.len() ==> #[trigger] indexes_view(indexes)[i] == indexes[i],
{
}

} // verus!
