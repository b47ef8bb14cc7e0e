//! Publication of immutable Documents, Canvases and bindings in the persistent catalog.

use vstd::prelude::*;

use crate::catalog::{
    are_layer_ids, canvas_of, canvas_problem, catalog_view, corruption, document_of,
    document_problem, document_type_name, layer_set, load_canvas, load_document, optional_texts,
    page_problem, page_rows_view, pages_of, pages_problem, BootstrapBinding, BootstrapBindingView,
    CanvasDescriptor, CanvasRow, CanvasRowView, CanvasView, CatalogErrorView, CatalogPublishOutcome,
    CatalogStoreError, DocumentDescriptor, DocumentRow, DocumentRowView, DocumentView,
    PageDescriptor, PageDescriptorView, PageRow, PageRowView,
};
use crate::text::{contains_string, same_text, string_texts};

verus! {

/// A Document with the Canvases that overlay its Pages.
#[derive(Debug)]
pub struct DocumentComposition {
    /// The Document.
    pub document: DocumentDescriptor,
    /// The Canvases, in the order of the Pages.
    pub canvases: Vec<CanvasDescriptor>,
}

/// The contents of [`DocumentComposition`].
pub struct CompositionView {
    /// The Document.
    pub document: DocumentView,
    /// The Canvases, in the order of the Pages.
    pub canvases: Seq<CanvasView>,
}

/// The contents of a list of Canvases.
pub open spec fn canvases_view(canvases: Seq<CanvasDescriptor>) -> Seq<CanvasView> {
    Seq::new(canvases.len(), |i: int| canvases[i]@)
}

impl View for DocumentComposition {
    type V = CompositionView;

    open spec fn view(&self) -> CompositionView {
        CompositionView { document: self.document@, canvases: canvases_view(self.canvases@) }
    }
}

/// The contents of optional Canvas rows.
pub open spec fn canvas_rows_view(rows: Seq<Option<CanvasRow>>) -> Seq<Option<CanvasRowView>> {
    Seq::new(rows.len(), |i: int| optional_canvas_row(rows[i]))
}

/// The contents of an optional Canvas row.
pub open spec fn optional_canvas_row(row: Option<CanvasRow>) -> Option<CanvasRowView> {
    match row {
        Some(row) => Some(row@),
        None => None,
    }
}

/// The contents of an optional Document row.
pub open spec fn optional_document_row(row: Option<DocumentRow>) -> Option<DocumentRowView> {
    match row {
        Some(row) => Some(row@),
        None => None,
    }
}

/// Identifiers of a composition that are stored already.
#[derive(Debug)]
pub struct TakenIds {
    /// Whether the Document identifier is stored.
    pub document: bool,
    /// The Canvas identifiers that are stored.
    pub canvas_ids: Vec<String>,
    /// The Layer identifiers that are stored.
    pub layer_ids: Vec<String>,
}

/// The contents of [`TakenIds`].
pub struct TakenIdsView {
    /// Whether the Document identifier is stored.
    pub document: bool,
    /// The Canvas identifiers that are stored.
    pub canvas_ids: Seq<Seq<char>>,
    /// The Layer identifiers that are stored.
    pub layer_ids: Seq<Seq<char>>,
}

impl View for TakenIds {
    type V = TakenIdsView;

    open spec fn view(&self) -> TakenIdsView {
        TakenIdsView {
            document: self.document,
            canvas_ids: string_texts(self.canvas_ids@),
            layer_ids: string_texts(self.layer_ids@),
        }
    }
}

/// Whether one of the identifiers in the set is stored already.
pub open spec fn is_layer_taken(layer_ids: Set<Seq<char>>, taken: Seq<Seq<char>>) -> bool {
    exists|id: Seq<char>| #[trigger] layer_ids.contains(id) && taken.contains(id)
}

/// Whether an identifier of the composition is stored already.
pub open spec fn ids_collide(composition: CompositionView, taken: TakenIdsView) -> bool {
    taken.document || exists|i: int|
        0 <= i < composition.canvases.len() && (taken.canvas_ids.contains(
            (#[trigger] composition.canvases[i]).canvas_id,
        ) || is_layer_taken(composition.canvases[i].layer_ids, taken.layer_ids))
}

fn layer_taken(canvas: &CanvasDescriptor, taken: &[String]) -> (r: bool)
    ensures
        r == is_layer_taken(canvas@.layer_ids, string_texts(taken@)),
{
    let items = canvas.layer_ids().items();
    let ghost ids = string_texts(items@);
    let mut i: usize = 0;
    while i < items.len()
        invariant
            i <= items@.len(),
            ids == string_texts(items@),
            ids.to_set() == canvas@.layer_ids,
            forall|j: int| 0 <= j < i ==> !string_texts(taken@).contains(#[trigger] ids[j]),
        decreases items@.len() - i,
    {
        assert(ids[i as int] == items@[i as int]@);
        if contains_string(taken, items[i].as_str()) {
            assert(ids.to_set().contains(ids[i as int]));
            assert(canvas@.layer_ids.contains(ids[i as int]));
            return true;
        }
        i = i + 1;
    }
    assert forall|id: Seq<char>| #[trigger]
        canvas@.layer_ids.contains(id) implies !string_texts(taken@).contains(id) by {
        assert(ids.to_set().contains(id));
        let k = choose|k: int| 0 <= k < ids.len() && ids[k] == id;
        assert(!string_texts(taken@).contains(ids[k]));
    }
    false
}

/// Returns whether an identifier of the composition is stored already.
pub fn document_ids_collide(composition: &DocumentComposition, taken: &TakenIds) -> (r: bool)
    ensures
        r == ids_collide(composition@, taken@),
{
    if taken.document {
        return true;
    }
    let mut i: usize = 0;
    while i < composition.canvases.len()
        invariant
            i <= composition.canvases@.len(),
            !taken@.document,
            forall|j: int|
                0 <= j < i ==> !taken@.canvas_ids.contains(
                    (#[trigger] composition@.canvases[j]).canvas_id,
                ) && !is_layer_taken(composition@.canvases[j].layer_ids, taken@.layer_ids),
        decreases composition.canvases@.len() - i,
    {
        let canvas = &composition.canvases[i];
        assert(composition@.canvases[i as int] == canvas@);
        if contains_string(taken.canvas_ids.as_slice(), canvas.canvas_id()) {
            return true;
        }
        if layer_taken(canvas, taken.layer_ids.as_slice()) {
            return true;
        }
        i = i + 1;
    }
    false
}

/// What is wrong with a Canvas that a published Document relies on.
pub open spec fn relied_canvas_problem(row: Option<CanvasRowView>) -> Option<Seq<char>> {
    match row {
        None => Some("published Document is missing its Canvas"@),
        Some(row) => canvas_problem(row),
    }
}

/// What is wrong with the Canvases from the one at `index` on: the first problem counts.
pub open spec fn relied_canvases_problem(rows: Seq<Option<CanvasRowView>>, index: int) -> Option<
    Seq<char>,
>
    decreases rows.len() - index,
{
    if index < 0 || index >= rows.len() {
        None
    } else if relied_canvas_problem(rows[index]) is Some {
        relied_canvas_problem(rows[index])
    } else {
        relied_canvases_problem(rows, index + 1)
    }
}

/// Whether the rows hold exactly the Canvases.
pub open spec fn are_canvases(rows: Seq<Option<CanvasRowView>>, canvases: Seq<CanvasView>) -> bool {
    forall|i: int| 0 <= i < canvases.len() ==> canvas_of(rows[i]->0) == #[trigger] canvases[i]
}

/// What publishing a composition does, where `existing` is stored under the Document identifier,
/// with the rows of the composition's Canvases: a published graph is immutable, and no identifier
/// is used twice.
pub open spec fn publish_verdict(
    composition: CompositionView,
    existing: Option<DocumentRowView>,
    canvas_rows: Seq<Option<CanvasRowView>>,
    taken: TakenIdsView,
) -> Result<CatalogPublishOutcome, CatalogErrorView> {
    match existing {
        Some(row) => if document_problem(row) is Some {
            Err(CatalogErrorView::Corruption(document_problem(row)->0))
        } else if relied_canvases_problem(canvas_rows, 0) is Some {
            Err(CatalogErrorView::Corruption(relied_canvases_problem(canvas_rows, 0)->0))
        } else if document_of(row) == composition.document && are_canvases(
            canvas_rows,
            composition.canvases,
        ) {
            Ok(CatalogPublishOutcome::Existing)
        } else {
            Err(CatalogErrorView::Conflict)
        },
        None => if ids_collide(composition, taken) {
            Err(CatalogErrorView::Conflict)
        } else {
            Ok(CatalogPublishOutcome::Inserted)
        },
    }
}

/// Decides what publishing a composition does.
///
/// Publishing the same graph again changes nothing; a different graph under a stored identifier is
/// a conflict. Where the outcome is an insertion, the rows of the graph are written.
pub fn publish_document(
    composition: &DocumentComposition,
    existing: Option<DocumentRow>,
    canvas_rows: &[Option<CanvasRow>],
    taken: &TakenIds,
) -> (r: Result<CatalogPublishOutcome, CatalogStoreError>)
    requires
        existing is Some ==> canvas_rows@.len() == composition.canvases@.len(),
    ensures
        catalog_view(r) == publish_verdict(
            composition@,
            optional_document_row(existing),
            canvas_rows_view(canvas_rows@),
            taken@,
        ),
{
    let ghost stored = optional_document_row(existing);
    let row = match existing {
        None => {
            return if document_ids_collide(composition, taken) {
                Err(CatalogStoreError::Conflict)
            } else {
                Ok(CatalogPublishOutcome::Inserted)
            };
        },
        Some(row) => row,
    };
    let document = match load_document(row) {
        Ok(document) => document,
        Err(error) => {
            return Err(error);
        },
    };
    let mut same = document.same(&composition.document);
    let ghost same_document = same;
    let ghost rows = canvas_rows_view(canvas_rows@);
    let mut i: usize = 0;
    while i < canvas_rows.len()
        invariant
            i <= canvas_rows@.len(),
            canvas_rows@.len() == composition.canvases@.len(),
            rows == canvas_rows_view(canvas_rows@),
            stored == optional_document_row(existing),
            stored is Some,
            document_problem(stored->0) is None,
            relied_canvases_problem(rows, 0) == relied_canvases_problem(rows, i as int),
            same == (same_document && forall|j: int|
                0 <= j < i ==> canvas_of(rows[j]->0) == #[trigger] composition@.canvases[j]),
        decreases canvas_rows@.len() - i,
    {
        assert(rows[i as int] == optional_canvas_row(canvas_rows@[i as int]));
        assert(composition@.canvases[i as int] == composition.canvases@[i as int]@);
        let canvas = match &canvas_rows[i] {
            Some(row) => match load_canvas(row) {
                Ok(canvas) => canvas,
                Err(error) => {
                    return Err(error);
                },
            },
            None => {
                return Err(corruption("published Document is missing its Canvas"));
            },
        };
        same = canvas.same(&composition.canvases[i]) && same;
        i = i + 1;
    }
    if same {
        assert(are_canvases(rows, composition@.canvases));
        Ok(CatalogPublishOutcome::Existing)
    } else {
        Err(CatalogStoreError::Conflict)
    }
}

/// The row that is written for a Page.
pub open spec fn encoded_page(page: PageDescriptorView) -> PageRowView {
    PageRowView {
        page_id: Some(page.page_id),
        page_index: page.page_index,
        width: page.width,
        height: page.height,
        rotation: page.rotation,
        rotation_accepted: true,
        geometry_accepted: true,
        overlay_canvas_id: Some(page.overlay_canvas_id),
    }
}

/// The row that is written for a Document.
pub open spec fn encoded_document(document: DocumentView, sequence: int) -> DocumentRowView {
    DocumentRowView {
        document_id: Some(document.document_id),
        session_id: Some(document.session_id),
        document_type: "pdf"@,
        source_asset_id: Some(document.source_asset_id),
        title: document.title,
        page_count: document.pages.len() as int,
        publication_sequence: sequence,
        pages: Seq::new(document.pages.len(), |i: int| encoded_page(document.pages[i])),
        accepted: true,
    }
}

fn page_row(page: &PageDescriptor) -> (r: PageRow)
    ensures
        r@ == encoded_page(page@),
{
    PageRow {
        page_id: Some(page.page_id.clone()),
        page_index: page.page_index as i64,
        width: page.width,
        height: page.height,
        rotation: page.rotation as i64,
        rotation_accepted: true,
        geometry_accepted: true,
        overlay_canvas_id: Some(page.overlay_canvas_id.clone()),
    }
}

/// Returns the rows that are written for a Document and its Pages, at a place in the order of
/// publication.
pub fn document_row(document: &DocumentDescriptor, sequence: i64) -> (r: Result<
    DocumentRow,
    CatalogStoreError,
>)
    ensures
        match r {
            Ok(row) => document@.is_valid() && document@.pages.len() <= i64::MAX && row@
                == encoded_document(document@, sequence as int),
            Err(error) => document@.pages.len() > i64::MAX && error@
                == CatalogErrorView::InvalidGraph("Document page count exceeds SQLite capacity"@),
        },
{
    let document_pages = document.pages();
    assert(document@.pages.len() == document_pages@.len());
    if document_pages.len() as u64 > i64::MAX as u64 {
        return Err(
            CatalogStoreError::InvalidGraph {
                detail: "Document page count exceeds SQLite capacity",
            },
        );
    }
    let mut pages: Vec<PageRow> = Vec::new();
    let mut i: usize = 0;
    while i < document_pages.len()
        invariant
            i <= document_pages@.len(),
            pages@.len() == i,
            forall|j: int|
                0 <= j < i ==> #[trigger] pages@[j]@ == encoded_page(document_pages@[j]@),
        decreases document_pages@.len() - i,
    {
        pages.push(page_row(&document_pages[i]));
        i = i + 1;
    }
    let ghost expected = encoded_document(document@, sequence as int).pages;
    assert(page_rows_view(pages@) =~= expected);
    Ok(
        DocumentRow {
            document_id: Some(document.document_id().to_owned()),
            session_id: Some(document.session_id().to_owned()),
            document_type: document_type_name(document.document_type()).to_owned(),
            source_asset_id: Some(document.source_asset_id().to_owned()),
            title: document.title().to_owned(),
            page_count: document_pages.len() as i64,
            publication_sequence: sequence,
            pages,
            accepted: true,
        },
    )
}

/// Whether a row is one that is written for a Canvas: its columns, and each Layer once.
pub open spec fn is_encoded_canvas(row: CanvasRowView, canvas: CanvasView) -> bool {
    &&& row.canvas_id == Some(canvas.canvas_id)
    &&& row.session_id == Some(canvas.session_id)
    &&& row.width == canvas.width
    &&& row.height == canvas.height
    &&& row.space_accepted
    &&& row.layer_count == canvas.layer_ids.len()
    &&& row.default_layer_id == Some(canvas.default_layer_id)
    &&& are_layer_ids(row.layer_ids)
    &&& layer_set(row.layer_ids) == canvas.layer_ids
    &&& row.layer_ids.len() == canvas.layer_ids.len()
    &&& row.accepted
}

/// Returns the rows that are written for a Canvas and its Layers.
pub fn canvas_row(canvas: &CanvasDescriptor) -> (r: Result<CanvasRow, CatalogStoreError>)
    ensures
        match r {
            Ok(row) => canvas@.is_valid() && canvas@.layer_ids.len() <= i64::MAX
                && is_encoded_canvas(row@, canvas@),
            Err(error) => canvas@.layer_ids.len() > i64::MAX && error@
                == CatalogErrorView::InvalidGraph("Canvas Layer count exceeds SQLite capacity"@),
        },
{
    let count: usize = canvas.layer_ids().len();
    if count as u64 > i64::MAX as u64 {
        return Err(
            CatalogStoreError::InvalidGraph {
                detail: "Canvas Layer count exceeds SQLite capacity",
            },
        );
    }
    let items = canvas.layer_ids().items();
    let ghost ids = string_texts(items@);
    proof {
        ids.unique_seq_to_set();
    }
    let mut layer_ids: Vec<Option<String>> = Vec::new();
    let mut i: usize = 0;
    assert(optional_texts(layer_ids@) =~= Seq::<Option<Seq<char>>>::empty());
    assert(ids.take(0).to_set() =~= Set::<Seq<char>>::empty());
    while i < items.len()
        invariant
            i <= items@.len(),
            ids == string_texts(items@),
            layer_ids@.len() == i,
            are_layer_ids(optional_texts(layer_ids@)),
            layer_set(optional_texts(layer_ids@)) == ids.take(i as int).to_set(),
        decreases items@.len() - i,
    {
        let ghost before = optional_texts(layer_ids@);
        layer_ids.push(Some(items[i].clone()));
        assert(ids[i as int] == items@[i as int]@);
        assert(optional_texts(layer_ids@) =~= before.push(Some(ids[i as int])));
        assert(before.push(Some(ids[i as int])).drop_last() =~= before);
        assert(ids.take(i + 1) =~= ids.take(i as int).push(ids[i as int]));
        proof {
            lemma_push_to_set(ids.take(i as int), ids[i as int]);
        }
        i = i + 1;
    }
    assert(ids.take(i as int) =~= ids);
    Ok(
        CanvasRow {
            canvas_id: Some(canvas.canvas_id().to_owned()),
            session_id: Some(canvas.session_id().to_owned()),
            width: canvas.width(),
            height: canvas.height(),
            space_accepted: true,
            layer_count: count as i64,
            default_layer_id: Some(canvas.default_layer_id().to_owned()),
            layer_ids,
            accepted: true,
        },
    )
}

proof fn lemma_push_to_set(s: Seq<Seq<char>>, x: Seq<char>)
    ensures
        s.push(x).to_set() == s.to_set().insert(x),
{
    let after = s.push(x);
    assert forall|y: Seq<char>| after.to_set().contains(y) == s.to_set().insert(x).contains(y) by {
        if after.contains(y) {
            let k = choose|k: int| 0 <= k < after.len() && after[k] == y;
            if k < s.len() {
                assert(s[k] == y);
            }
        }
        if s.contains(y) {
            let k = choose|k: int| 0 <= k < s.len() && s[k] == y;
            assert(after[k] == y);
        }
        assert(after[s.len() as int] == x);
    }
    assert(after.to_set() =~= s.to_set().insert(x));
}

/// What publishing a standalone Canvas does, where `existing` is stored under its identifier and
/// `taken` are the Layer identifiers that are stored.
pub open spec fn standalone_verdict(
    canvas: CanvasView,
    existing: Option<CanvasRowView>,
    taken: Seq<Seq<char>>,
) -> Result<CatalogPublishOutcome, CatalogErrorView> {
    match existing {
        Some(row) => if canvas_problem(row) is Some {
            Err(CatalogErrorView::Corruption(canvas_problem(row)->0))
        } else if canvas_of(row) == canvas {
            Ok(CatalogPublishOutcome::Existing)
        } else {
            Err(CatalogErrorView::Conflict)
        },
        None => if is_layer_taken(canvas.layer_ids, taken) {
            Err(CatalogErrorView::Conflict)
        } else {
            Ok(CatalogPublishOutcome::Inserted)
        },
    }
}

/// Decides what publishing a standalone Canvas does.
pub fn publish_standalone(
    canvas: &CanvasDescriptor,
    existing: &Option<CanvasRow>,
    taken_layer_ids: &[String],
) -> (r: Result<CatalogPublishOutcome, CatalogStoreError>)
    ensures
        catalog_view(r) == standalone_verdict(
            canvas@,
            optional_canvas_row(*existing),
            string_texts(taken_layer_ids@),
        ),
{
    match existing {
        Some(row) => match load_canvas(row) {
            Err(error) => Err(error),
            Ok(stored) => if stored.same(canvas) {
                Ok(CatalogPublishOutcome::Existing)
            } else {
                Err(CatalogStoreError::Conflict)
            },
        },
        None => if layer_taken(canvas, taken_layer_ids) {
            Err(CatalogStoreError::Conflict)
        } else {
            Ok(CatalogPublishOutcome::Inserted)
        },
    }
}

/// The texts that a stored binding holds.
#[derive(Debug)]
pub struct StoredBinding {
    /// The text of the Session identifier.
    pub session_id: String,
    /// The text of the Canvas identifier.
    pub canvas_id: String,
}

impl View for StoredBinding {
    type V = BootstrapBindingView;

    open spec fn view(&self) -> BootstrapBindingView {
        BootstrapBindingView { session_id: self.session_id@, canvas_id: self.canvas_id@ }
    }
}

/// The contents of an optional stored binding.
pub open spec fn optional_binding(binding: Option<StoredBinding>) -> Option<BootstrapBindingView> {
    match binding {
        Some(binding) => Some(binding@),
        None => None,
    }
}

/// What publishing a standalone Canvas together with its binding does.
#[derive(Clone, Copy, Debug, PartialEq, Eq, Structural)]
pub enum BindingStep {
    /// Canvas and binding are stored already; nothing is written.
    AlreadyBound,
    /// The Canvas is stored already; the binding is written.
    BindExisting,
    /// Canvas and binding are written.
    InsertAndBind,
}

impl BindingStep {
    /// What is answered.
    pub open spec fn spec_outcome(self) -> CatalogPublishOutcome {
        match self {
            BindingStep::InsertAndBind => CatalogPublishOutcome::Inserted,
            _ => CatalogPublishOutcome::Existing,
        }
    }

    /// Returns what is answered.
    pub fn outcome(self) -> (r: CatalogPublishOutcome)
        ensures
            r == self.spec_outcome(),
    {
        match self {
            BindingStep::InsertAndBind => CatalogPublishOutcome::Inserted,
            BindingStep::AlreadyBound => CatalogPublishOutcome::Existing,
            BindingStep::BindExisting => CatalogPublishOutcome::Existing,
        }
    }
}

/// What publishing a standalone Canvas together with its binding does, where `bound` is stored
/// under the key and `existing` under the Canvas identifier.
pub open spec fn binding_verdict(
    canvas: CanvasView,
    binding: BootstrapBindingView,
    bound: Option<BootstrapBindingView>,
    existing: Option<CanvasRowView>,
) -> Result<BindingStep, CatalogErrorView> {
    if binding.canvas_id != canvas.canvas_id || binding.session_id != canvas.session_id {
        Err(CatalogErrorView::Conflict)
    } else if bound is Some && bound->0 != binding {
        Err(CatalogErrorView::Conflict)
    } else {
        match existing {
            None => if bound is Some {
                Err(
                    CatalogErrorView::Corruption("bootstrap binding references missing Canvas"@),
                )
            } else {
                Ok(BindingStep::InsertAndBind)
            },
            Some(row) => if canvas_problem(row) is Some {
                Err(CatalogErrorView::Corruption(canvas_problem(row)->0))
            } else if canvas_of(row) != canvas {
                Err(CatalogErrorView::Conflict)
            } else if bound is Some {
                Ok(BindingStep::AlreadyBound)
            } else {
                Ok(BindingStep::BindExisting)
            },
        }
    }
}

/// Decides what publishing a standalone Canvas together with its binding does.
pub fn publish_standalone_with_binding(
    canvas: &CanvasDescriptor,
    binding: &BootstrapBinding,
    bound: &Option<StoredBinding>,
    existing: &Option<CanvasRow>,
) -> (r: Result<BindingStep, CatalogStoreError>)
    ensures
        catalog_view(r) == binding_verdict(
            canvas@,
            binding@,
            optional_binding(*bound),
            optional_canvas_row(*existing),
        ),
{
    if !same_text(binding.canvas_id.as_str(), canvas.canvas_id()) || !same_text(
        binding.session_id.as_str(),
        canvas.session_id(),
    ) {
        return Err(CatalogStoreError::Conflict);
    }
    let is_bound = match bound {
        Some(bound) => {
            if !same_text(bound.session_id.as_str(), binding.session_id.as_str()) || !same_text(
                bound.canvas_id.as_str(),
                binding.canvas_id.as_str(),
            ) {
                return Err(CatalogStoreError::Conflict);
            }
            true
        },
        None => false,
    };
    match existing {
        None => if is_bound {
            Err(corruption("bootstrap binding references missing Canvas"))
        } else {
            Ok(BindingStep::InsertAndBind)
        },
        Some(row) => match load_canvas(row) {
            Err(error) => Err(error),
            Ok(stored) => if !stored.same(canvas) {
                Err(CatalogStoreError::Conflict)
            } else if is_bound {
                Ok(BindingStep::AlreadyBound)
            } else {
                Ok(BindingStep::BindExisting)
            },
        },
    }
}

/// Decides whether a binding is written, where `bound` is stored under its key. A stored binding is
/// never changed.
pub fn store_binding(binding: &BootstrapBinding, bound: &Option<StoredBinding>) -> (r: Result<
    bool,
    CatalogStoreError,
>)
    ensures
        catalog_view(r) == match optional_binding(*bound) {
            None => Ok::<bool, CatalogErrorView>(true),
            Some(stored) => if stored == binding@ {
                Ok(false)
            } else {
                Err(CatalogErrorView::Conflict)
            },
        },
{
    match bound {
        None => Ok(true),
        Some(stored) => if same_text(stored.session_id.as_str(), binding.session_id.as_str())
            && same_text(stored.canvas_id.as_str(), binding.canvas_id.as_str()) {
            Ok(false)
        } else {
            Err(CatalogStoreError::Conflict)
        },
    }
}

/// A Document that the order of publication names.
#[derive(Debug)]
pub struct ListedDocument {
    /// Whether the identifier can be read.
    pub readable: bool,
    /// The row stored under the identifier.
    pub row: Option<DocumentRow>,
    /// Whether the number of Pages fits a summary.
    pub summarizable: bool,
}

/// The contents of [`ListedDocument`].
pub struct ListedDocumentView {
    /// Whether the identifier can be read.
    pub readable: bool,
    /// The row stored under the identifier.
    pub row: Option<DocumentRowView>,
    /// Whether the number of Pages fits a summary.
    pub summarizable: bool,
}

impl View for ListedDocument {
    type V = ListedDocumentView;

    open spec fn view(&self) -> ListedDocumentView {
        ListedDocumentView {
            readable: self.readable,
            row: optional_document_row(self.row),
            summarizable: self.summarizable,
        }
    }
}

/// The contents of a list of listed Documents.
pub open spec fn listed_view(listed: Seq<ListedDocument>) -> Seq<ListedDocumentView> {
    Seq::new(listed.len(), |i: int| listed[i]@)
}

/// What is wrong with a listed Document.
pub open spec fn listed_problem(listed: ListedDocumentView, summaries: bool) -> Option<Seq<char>> {
    if !listed.readable {
        Some("malformed document ID"@)
    } else if listed.row is None {
        Some("publication order references missing Document"@)
    } else if document_problem(listed.row->0) is Some {
        document_problem(listed.row->0)
    } else if summaries && !listed.summarizable {
        Some("Document page count overflowed"@)
    } else {
        None
    }
}

/// What is wrong with the listed Documents from the one at `index` on: the first problem counts.
pub open spec fn listing_problem(
    listed: Seq<ListedDocumentView>,
    summaries: bool,
    index: int,
) -> Option<Seq<char>>
    decreases listed.len() - index,
{
    if index < 0 || index >= listed.len() {
        None
    } else if listed_problem(listed[index], summaries) is Some {
        listed_problem(listed[index], summaries)
    } else {
        listing_problem(listed, summaries, index + 1)
    }
}

/// The contents of a list of Documents.
pub open spec fn documents_view(documents: Seq<DocumentDescriptor>) -> Seq<DocumentView> {
    Seq::new(documents.len(), |i: int| documents[i]@)
}

/// The Documents of a listing without problems, in the order of publication.
pub open spec fn listed_documents(listed: Seq<ListedDocumentView>) -> Seq<DocumentView> {
    Seq::new(listed.len(), |i: int| document_of(listed[i].row->0))
}

/// Decodes the Documents of a listing, in the order of publication; `summaries` tells whether
/// summaries are made of them.
pub fn list_documents(listed: Vec<ListedDocument>, summaries: bool) -> (r: Result<
    Vec<DocumentDescriptor>,
    CatalogStoreError,
>)
    ensures
        match r {
            Ok(documents) => listing_problem(listed_view(listed@), summaries, 0) is None
                && documents_view(documents@) == listed_documents(listed_view(listed@)),
            Err(error) => listing_problem(listed_view(listed@), summaries, 0) is Some && error@
                == CatalogErrorView::Corruption(
                listing_problem(listed_view(listed@), summaries, 0)->0,
            ),
        },
{
    let ghost all = listed_view(listed@);
    let mut documents: Vec<DocumentDescriptor> = Vec::new();
    for entry in it: listed
        invariant
            it.seq() == listed@,
            all == listed_view(listed@),
            documents@.len() == it.index(),
            forall|i: int|
                0 <= i < documents@.len() ==> #[trigger] documents@[i]@ == document_of(
                    all[i].row->0,
                ),
            listing_problem(all, summaries, 0) == listing_problem(all, summaries, it.index()),
    {
        let ghost index = it.index();
        assert(all[index] == entry@);
        if !entry.readable {
            return Err(corruption("malformed document ID"));
        }
        let summarizable = entry.summarizable;
        let row = match entry.row {
            Some(row) => row,
            None => {
                return Err(corruption("publication order references missing Document"));
            },
        };
        match load_document(row) {
            Ok(document) => {
                if summaries && !summarizable {
                    return Err(corruption("Document page count overflowed"));
                }
                documents.push(document);
            },
            Err(error) => {
                return Err(error);
            },
        }
    }
    assert(documents_view(documents@) =~= listed_documents(all));
    Ok(documents)
}

/// A Document is read back from its rows exactly as it was published.
pub proof fn law_published_document_is_read_back(document: DocumentView, sequence: int)
    requires
        document.is_valid(),
    ensures
        document_problem(encoded_document(document, sequence)) is None,
        document_of(encoded_document(document, sequence)) == document,
{
    let row = encoded_document(document, sequence);
    lemma_encoded_pages(document, sequence, 0);
    assert(pages_of(row.pages) =~= document.pages);
}

proof fn lemma_encoded_pages(document: DocumentView, sequence: int, index: int)
    requires
        0 <= index <= document.pages.len(),
        document.is_valid(),
    ensures
        pages_problem(encoded_document(document, sequence).pages, index) is None,
    decreases document.pages.len() - index,
{
    if index < document.pages.len() {
        assert(document.pages[index].is_valid());
        assert(page_problem(encoded_document(document, sequence).pages[index]) is None);
        lemma_encoded_pages(document, sequence, index + 1);
    }
}

/// A Canvas is read back from its rows exactly as it was published.
pub proof fn law_published_canvas_is_read_back(canvas: CanvasView, row: CanvasRowView)
    requires
        canvas.is_valid(),
        is_encoded_canvas(row, canvas),
    ensures
        canvas_problem(row) is None,
        canvas_of(row) == canvas,
{
}

impl CompositionView {
    /// Whether these are the contents of a Document and of Canvases.
    pub open spec fn is_valid(self) -> bool {
        &&& self.document.is_valid()
        &&& forall|i: int| 0 <= i < self.canvases.len() ==> (#[trigger] self.canvases[i]).is_valid()
    }
}

/// Whether the rows are those that are written for the Canvases.
pub open spec fn are_written(rows: Seq<Option<CanvasRowView>>, canvases: Seq<CanvasView>) -> bool {
    &&& rows.len() == canvases.len()
    &&& forall|i: int|
        0 <= i < rows.len() ==> (#[trigger] rows[i]) is Some && is_encoded_canvas(
            rows[i]->0,
            canvases[i],
        )
}

/// Publishing a composition again, after its rows were written, changes nothing and is answered as
/// existing; publishing another one under the same Document identifier, such as one with another
/// title, is a conflict. Either way the Document and every Canvas are read back as they were
/// published.
pub proof fn law_publication_is_immutable(
    composition: CompositionView,
    other: CompositionView,
    sequence: int,
    rows: Seq<Option<CanvasRowView>>,
    taken: TakenIdsView,
)
    requires
        composition.is_valid(),
        are_written(rows, composition.canvases),
        other.canvases.len() == composition.canvases.len(),
    ensures
        publish_verdict(
            other,
            Some(encoded_document(composition.document, sequence)),
            rows,
            taken,
        ) == if other == composition {
            Ok::<CatalogPublishOutcome, CatalogErrorView>(CatalogPublishOutcome::Existing)
        } else {
            Err(CatalogErrorView::Conflict)
        },
        document_problem(encoded_document(composition.document, sequence)) is None,
        document_of(encoded_document(composition.document, sequence)) == composition.document,
        forall|i: int|
            0 <= i < rows.len() ==> canvas_problem((#[trigger] rows[i])->0) is None && canvas_of(
                rows[i]->0,
            ) == composition.canvases[i],
{
    law_published_document_is_read_back(composition.document, sequence);
    lemma_relied_canvases(composition, rows, 0);
    assert forall|i: int| 0 <= i < rows.len() implies canvas_problem((#[trigger] rows[i])->0) is None
        && canvas_of(rows[i]->0) == composition.canvases[i] by {
        assert(composition.canvases[i].is_valid());
        law_published_canvas_is_read_back(composition.canvases[i], rows[i]->0);
    }
    if other != composition && other.document == composition.document {
        if are_canvases(rows, other.canvases) {
            assert forall|i: int| 0 <= i < rows.len() implies other.canvases[i]
                == composition.canvases[i] by {
                assert(canvas_of(rows[i]->0) == other.canvases[i]);
            }
            assert(other.canvases =~= composition.canvases);
        }
    }
    if other == composition {
        assert(are_canvases(rows, other.canvases));
    }
}

proof fn lemma_relied_canvases(
    composition: CompositionView,
    rows: Seq<Option<CanvasRowView>>,
    index: int,
)
    requires
        0 <= index <= rows.len(),
        composition.is_valid(),
        are_written(rows, composition.canvases),
    ensures
        relied_canvases_problem(rows, index) is None,
    decreases rows.len() - index,
{
    if index < rows.len() {
        assert(rows[index] is Some);
        assert(composition.canvases[index].is_valid());
        lemma_relied_canvases(composition, rows, index + 1);
    }
}

/// A composition is written only where none of its identifiers is stored: publication never
/// overwrites and never shares a Canvas or a Layer.
pub proof fn law_publication_never_overwrites(
    composition: CompositionView,
    existing: Option<DocumentRowView>,
    rows: Seq<Option<CanvasRowView>>,
    taken: TakenIdsView,
)
    ensures
        publish_verdict(composition, existing, rows, taken) == Ok::<
            CatalogPublishOutcome,
            CatalogErrorView,
        >(CatalogPublishOutcome::Inserted) ==> existing is None && !ids_collide(composition, taken),
{
}

/// Every part of a Document and of its Pages stands in the column of that name, the Pages in their
/// order, with their number and the place of the Document in the order of publication.
pub proof fn law_rows_hold_what_is_published(document: DocumentView, sequence: int)
    ensures
        ({
            let row = encoded_document(document, sequence);
            &&& row.document_id == Some(document.document_id)
            &&& row.session_id == Some(document.session_id)
            &&& row.document_type == "pdf"@
            &&& row.source_asset_id == Some(document.source_asset_id)
            &&& row.title == document.title
            &&& row.page_count == document.pages.len()
            &&& row.publication_sequence == sequence
            &&& row.pages.len() == document.pages.len()
            &&& forall|i: int|
                0 <= i < document.pages.len() ==> {
                    let stored = #[trigger] row.pages[i];
                    &&& stored.page_id == Some(document.pages[i].page_id)
                    &&& stored.page_index == document.pages[i].page_index
                    &&& stored.width == document.pages[i].width
                    &&& stored.height == document.pages[i].height
                    &&& stored.rotation == document.pages[i].rotation
                    &&& stored.overlay_canvas_id == Some(document.pages[i].overlay_canvas_id)
                }
        }),
{
}

/// A new composition is inserted exactly where neither its Document, nor any of its Canvases, nor
/// any of their Layers is stored under its identifier; otherwise it is a conflict.
pub proof fn law_new_compositions_are_inserted(
    composition: CompositionView,
    rows: Seq<Option<CanvasRowView>>,
    taken: TakenIdsView,
)
    ensures
        publish_verdict(composition, None, rows, taken) == if !taken.document && (forall|i: int|
            0 <= i < composition.canvases.len() ==> !taken.canvas_ids.contains(
                (#[trigger] composition.canvases[i]).canvas_id,
            ) && forall|id: Seq<char>|
                composition.canvases[i].layer_ids.contains(id)
                    ==> !#[trigger] taken.layer_ids.contains(
                    id,
                )) {
            Ok::<CatalogPublishOutcome, CatalogErrorView>(CatalogPublishOutcome::Inserted)
        } else {
            Err(CatalogErrorView::Conflict)
        },
{
    if !ids_collide(composition, taken) {
        assert forall|i: int| 0 <= i < composition.canvases.len() implies !taken.canvas_ids.contains(
            (#[trigger] composition.canvases[i]).canvas_id,
        ) && forall|id: Seq<char>|
            composition.canvases[i].layer_ids.contains(id) ==> !#[trigger] taken.layer_ids.contains(
                id,
            ) by {
            assert(!is_layer_taken(composition.canvases[i].layer_ids, taken.layer_ids));
        }
    }
}

/// A composition whose Document is stored is answered as existing exactly where the stored Document
/// and every stored Canvas are the ones of the composition, and is a conflict otherwise; where the
/// stored Document, or a Canvas it relies on, is missing or cannot be decoded, the catalog is
/// corrupt. It is never inserted.
pub proof fn law_stored_compositions_are_compared(
    composition: CompositionView,
    row: DocumentRowView,
    rows: Seq<Option<CanvasRowView>>,
    taken: TakenIdsView,
)
    requires
        rows.len() == composition.canvases.len(),
    ensures
        ({
            let outcome = publish_verdict(composition, Some(row), rows, taken);
            let decodable = document_problem(row) is None && forall|i: int|
                0 <= i < rows.len() ==> (#[trigger] rows[i]) is Some && canvas_problem(
                    rows[i]->0,
                ) is None;
            &&& !decodable ==> (outcome matches Err(CatalogErrorView::Corruption(_)))
            &&& decodable ==> outcome == if document_of(row) == composition.document && (forall|
                i: int,
            |
                0 <= i < rows.len() ==> canvas_of((#[trigger] rows[i])->0)
                    == composition.canvases[i]) {
                Ok::<CatalogPublishOutcome, CatalogErrorView>(CatalogPublishOutcome::Existing)
            } else {
                Err(CatalogErrorView::Conflict)
            }
        }),
{
    lemma_relied_canvases_problem(rows, 0);
    if forall|i: int|
        0 <= i < rows.len() ==> canvas_of((#[trigger] rows[i])->0) == composition.canvases[i] {
        assert forall|i: int| 0 <= i < composition.canvases.len() implies canvas_of(rows[i]->0)
            == #[trigger] composition.canvases[i] by {
            assert(canvas_of(rows[i]->0) == composition.canvases[i]);
        }
    }
    if are_canvases(rows, composition.canvases) {
        assert forall|i: int| 0 <= i < rows.len() implies canvas_of((#[trigger] rows[i])->0)
            == composition.canvases[i] by {
            assert(composition.canvases[i] == canvas_of(rows[i]->0));
        }
    }
}

proof fn lemma_relied_canvases_problem(rows: Seq<Option<CanvasRowView>>, index: int)
    requires
        0 <= index,
    ensures
        relied_canvases_problem(rows, index) is None <==> forall|i: int|
            index <= i < rows.len() ==> (#[trigger] rows[i]) is Some && canvas_problem(
                rows[i]->0,
            ) is None,
    decreases rows.len() - index,
{
    if index < rows.len() {
        lemma_relied_canvases_problem(rows, index + 1);
    }
}

/// A standalone Canvas is inserted where neither it nor any of its Layers is stored, is answered as
/// existing where the very same Canvas is stored, and is a conflict otherwise.
pub proof fn law_standalone_canvases(
    canvas: CanvasView,
    row: CanvasRowView,
    taken: Seq<Seq<char>>,
)
    ensures
        standalone_verdict(canvas, None, taken) == if forall|id: Seq<char>|
            canvas.layer_ids.contains(id) ==> !#[trigger] taken.contains(id) {
            Ok::<CatalogPublishOutcome, CatalogErrorView>(CatalogPublishOutcome::Inserted)
        } else {
            Err(CatalogErrorView::Conflict)
        },
        canvas_problem(row) is None ==> standalone_verdict(canvas, Some(row), taken)
            == if canvas_of(row) == canvas {
            Ok::<CatalogPublishOutcome, CatalogErrorView>(CatalogPublishOutcome::Existing)
        } else {
            Err(CatalogErrorView::Conflict)
        },
        canvas_problem(row) is Some ==> (standalone_verdict(canvas, Some(row), taken) matches Err(
            CatalogErrorView::Corruption(_),
        )),
{
    if !is_layer_taken(canvas.layer_ids, taken) {
        assert forall|id: Seq<char>| canvas.layer_ids.contains(id) implies !#[trigger] taken.contains(
            id,
        ) by {
            assert(canvas.layer_ids.contains(id));
        }
    }
}

/// A Canvas is published with its binding only where the binding names that Canvas and its Session
/// and no other binding is stored. Then what is missing is written: both where nothing is stored,
/// the binding alone where the very same Canvas is stored, and nothing where both are; and it is
/// answered as inserted only where the Canvas was written.
pub proof fn law_bound_canvases(
    canvas: CanvasView,
    binding: BootstrapBindingView,
    bound: Option<BootstrapBindingView>,
    existing: Option<CanvasRowView>,
)
    requires
        existing matches Some(row) ==> canvas_problem(row) is None,
    ensures
        ({
            let outcome = binding_verdict(canvas, binding, bound, existing);
            let named = binding.canvas_id == canvas.canvas_id && binding.session_id
                == canvas.session_id && (bound is None || bound == Some(binding));
            let same = existing matches Some(row) && canvas_of(row) == canvas;
            &&& outcome == Ok::<BindingStep, CatalogErrorView>(BindingStep::InsertAndBind)
                <==> named
                && bound is None && existing is None
            &&& outcome == Ok::<BindingStep, CatalogErrorView>(BindingStep::BindExisting) <==> named
                && bound is None && same
            &&& outcome == Ok::<BindingStep, CatalogErrorView>(BindingStep::AlreadyBound) <==> named
                && bound is Some && same
            &&& !named ==> outcome == Err::<BindingStep, CatalogErrorView>(
                CatalogErrorView::Conflict,
            )
            &&& named && existing is Some && !same ==> outcome == Err::<
                BindingStep,
                CatalogErrorView,
            >(CatalogErrorView::Conflict)
            &&& named && bound is Some && existing is None ==> (outcome matches Err(
                CatalogErrorView::Corruption(_),
            ))
        }),
        BindingStep::InsertAndBind.spec_outcome() == CatalogPublishOutcome::Inserted,
        BindingStep::BindExisting.spec_outcome() == CatalogPublishOutcome::Existing,
        BindingStep::AlreadyBound.spec_outcome() == CatalogPublishOutcome::Existing,
{
}

/// A listing holds every Document of the order of publication, in that order and none twice, as it
/// is stored; it fails where one of them cannot be read, is missing or cannot be decoded, or where
/// summaries are made and its Pages are too many for one.
pub proof fn law_listing_holds_every_document(listed: Seq<ListedDocumentView>, summaries: bool)
    ensures
        listing_problem(listed, summaries, 0) is None <==> forall|i: int|
            0 <= i < listed.len() ==> (#[trigger] listed[i]).readable && listed[i].row is Some
                && document_problem(listed[i].row->0) is None && (summaries
                ==> listed[i].summarizable),
        listed_documents(listed).len() == listed.len(),
        forall|i: int|
            0 <= i < listed.len() ==> #[trigger] listed_documents(listed)[i] == document_of(
                listed[i].row->0,
            ),
{
    lemma_listing_problem(listed, summaries, 0);
}

proof fn lemma_listing_problem(listed: Seq<ListedDocumentView>, summaries: bool, index: int)
    requires
        0 <= index,
    ensures
        listing_problem(listed, summaries, index) is None <==> forall|i: int|
            index <= i < listed.len() ==> (#[trigger] listed[i]).readable && listed[i].row is Some
                && document_problem(listed[i].row->0) is None && (summaries
                ==> listed[i].summarizable),
    decreases listed.len() - index,
{
    if index < listed.len() {
        lemma_listing_problem(listed, summaries, index + 1);
    }
}

/// A row that is written for a Canvas has what the Canvas has in the column of that name, and each
/// of its Layers once.
pub proof fn law_canvas_rows_hold_what_is_published(row: CanvasRowView, canvas: CanvasView)
    requires
        is_encoded_canvas(row, canvas),
    ensures
        row.canvas_id == Some(canvas.canvas_id),
        row.session_id == Some(canvas.session_id),
        row.width == canvas.width,
        row.height == canvas.height,
        row.default_layer_id == Some(canvas.default_layer_id),
        row.layer_count == row.layer_ids.len(),
        row.layer_count == canvas.layer_ids.len(),
        row.space_accepted,
        row.accepted,
        forall|id: Seq<char>| #[trigger]
            canvas.layer_ids.contains(id) <==> exists|i: int|
                0 <= i < row.layer_ids.len() && #[trigger] row.layer_ids[i] == Some(id),
{
    assert forall|id: Seq<char>| #[trigger] canvas.layer_ids.contains(id) <==> exists|i: int|
        0 <= i < row.layer_ids.len() && #[trigger] row.layer_ids[i] == Some(id) by {
        crate::catalog::law_layers_are_those_named(row.layer_ids, id);
    }
}

/// A listed Document with one defect is told by that defect.
pub proof fn law_defects_of_a_listing_are_named(
    listed: ListedDocumentView,
)
    requires
        listed_problem(listed, true) is None,
    ensures
        listed_problem(ListedDocumentView { readable: false, ..listed }, true) == Some(
            "malformed document ID"@,
        ),
        listed_problem(ListedDocumentView { row: None, ..listed }, true) == Some(
            "publication order references missing Document"@,
        ),
        listed_problem(ListedDocumentView { summarizable: false, ..listed }, true) == Some(
            "Document page count overflowed"@,
        ),
        listed_problem(ListedDocumentView { summarizable: false, ..listed }, false) is None,
{
}

/// Optional rows, an optional binding and lists of them show what they hold, in their order.
pub proof fn law_views_of_rows(
    row: CanvasRow,
    document: DocumentRow,
    binding: StoredBinding,
    rows: Seq<Option<CanvasRow>>,
    canvases: Seq<CanvasDescriptor>,
    listed: Seq<ListedDocument>,
    documents: Seq<DocumentDescriptor>,
)
    ensures
        optional_canvas_row(Some(row)) == Some(row@),
        optional_canvas_row(None) is None,
        optional_document_row(Some(document)) == Some(document@),
        optional_document_row(None) is None,
        optional_binding(Some(binding)) == Some(binding@),
        optional_binding(None) is None,
        binding@.session_id == binding.session_id@,
        binding@.canvas_id == binding.canvas_id@,
        canvas_rows_view(rows).len() == rows.len(),
        forall|i: int|
            0 <= i < rows.len() ==> #[trigger] canvas_rows_view(rows)[i] == match rows[i] {
                Some(row) => Some(row@),
                None => None,
            },
        canvases_view(canvases).len() == canvases.len(),
        forall|i: int| 0 <= i < canvases.len() ==> #[trigger] canvases_view(canvases)[i]
            == canvases[i]@,
        listed_view(listed).len() == listed.len(),
        forall|i: int| 0 <= i < listed.len() ==> #[trigger] listed_view(listed)[i] == listed[i]@,
        documents_view(documents).len() == documents.len(),
        forall|i: int| 0 <= i < documents.len() ==> #[trigger] documents_view(documents)[i]
            == documents[i]@,
{
}

} // verus!
