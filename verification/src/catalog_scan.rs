//! The integrity scan that runs when the persistent catalog is opened.

use vstd::prelude::*;

use crate::catalog::{
    binding_problem, canvas_of, canvas_problem, catalog_view, corruption, document_body_problem,
    document_of, document_problem, load_canvas, load_document, pages_view, BindingRow, BindingRowView,
    BootstrapBindingView, CanvasDescriptor, CanvasRow, CanvasRowView, CanvasView, CatalogErrorView,
    CatalogPublishOutcome, CatalogStoreError, DocumentDescriptor, DocumentRow, DocumentRowView,
    DocumentView, PageDescriptorView,
};
use crate::catalog_publish::{
    binding_verdict, encoded_document, is_encoded_canvas, law_published_canvas_is_read_back,
    law_published_document_is_read_back, standalone_verdict, BindingStep, CompositionView,
};
use crate::text::same_text;

verus! {

/// A Canvas row and the text under which it is stored.
#[derive(Debug)]
pub struct KeyedCanvas {
    /// The text of the Canvas identifier.
    pub key: String,
    /// The row.
    pub row: CanvasRow,
}

/// The text under which a Canvas row is stored, and the row.
pub type KeyedCanvasView = (Seq<char>, CanvasRowView);

impl View for KeyedCanvas {
    type V = KeyedCanvasView;

    open spec fn view(&self) -> KeyedCanvasView {
        (self.key@, self.row@)
    }
}

/// All rows of a catalog.
#[derive(Debug)]
pub struct CatalogSnapshot {
    /// Whether every foreign key holds.
    pub foreign_keys_hold: bool,
    /// The Documents, in the order of publication.
    pub documents: Vec<DocumentRow>,
    /// The Canvases.
    pub canvases: Vec<KeyedCanvas>,
    /// The number of Layers without a Canvas.
    pub orphan_layers: i64,
    /// The bindings.
    pub bindings: Vec<BindingRow>,
}

/// The contents of [`CatalogSnapshot`].
pub struct SnapshotView {
    /// Whether every foreign key holds.
    pub foreign_keys_hold: bool,
    /// The Documents, in the order of publication.
    pub documents: Seq<DocumentRowView>,
    /// The Canvases.
    pub canvases: Seq<KeyedCanvasView>,
    /// The number of Layers without a Canvas.
    pub orphan_layers: int,
    /// The bindings.
    pub bindings: Seq<BindingRowView>,
}

impl View for CatalogSnapshot {
    type V = SnapshotView;

    open spec fn view(&self) -> SnapshotView {
        SnapshotView {
            foreign_keys_hold: self.foreign_keys_hold,
            documents: Seq::new(self.documents@.len(), |i: int| self.documents@[i]@),
            canvases: keyed_view(self.canvases@),
            orphan_layers: self.orphan_layers as int,
            bindings: Seq::new(self.bindings@.len(), |i: int| self.bindings@[i]@),
        }
    }
}

/// The contents of a list of Canvas rows.
pub open spec fn keyed_view(canvases: Seq<KeyedCanvas>) -> Seq<KeyedCanvasView> {
    Seq::new(canvases.len(), |i: int| canvases[i]@)
}

/// The Canvas row that is stored under an identifier.
pub open spec fn canvas_at(canvases: Seq<KeyedCanvasView>, id: Seq<char>) -> Option<CanvasRowView>
    decreases canvases.len(),
{
    if canvases.len() == 0 {
        None
    } else if canvases[0].0 == id {
        Some(canvases[0].1)
    } else {
        canvas_at(canvases.skip(1), id)
    }
}

fn find_canvas<'a>(canvases: &'a [KeyedCanvas], id: &str) -> (r: Option<&'a CanvasRow>)
    ensures
        match r {
            Some(row) => canvas_at(keyed_view(canvases@), id@) == Some(row@),
            None => canvas_at(keyed_view(canvases@), id@) is None,
        },
{
    let ghost all = keyed_view(canvases@);
    let mut i: usize = 0;
    assert(all.skip(0) =~= all);
    while i < canvases.len()
        invariant
            i <= canvases@.len(),
            all == keyed_view(canvases@),
            canvas_at(all, id@) == canvas_at(all.skip(i as int), id@),
        decreases canvases@.len() - i,
    {
        assert(all.skip(i as int)[0] == canvases@[i as int]@);
        assert(all.skip(i as int).skip(1) =~= all.skip(i + 1));
        if same_text(canvases[i].key.as_str(), id) {
            return Some(&canvases[i].row);
        }
        i = i + 1;
    }
    None
}

/// What is wrong with a reference to a Canvas that has to be stored.
pub open spec fn reference_problem(
    canvases: Seq<KeyedCanvasView>,
    id: Seq<char>,
    missing: Seq<char>,
) -> Option<Seq<char>> {
    match canvas_at(canvases, id) {
        None => Some(missing),
        Some(row) => canvas_problem(row),
    }
}

/// Resolves a reference to a Canvas that has to be stored; `missing` tells what it is if not.
fn resolve_canvas(canvases: &[KeyedCanvas], id: &str, missing: &'static str) -> (r: Result<
    CanvasDescriptor,
    CatalogStoreError,
>)
    ensures
        match r {
            Ok(canvas) => reference_problem(keyed_view(canvases@), id@, missing@) is None && canvas@
                == canvas_of(canvas_at(keyed_view(canvases@), id@)->0),
            Err(error) => reference_problem(keyed_view(canvases@), id@, missing@) is Some && error@
                == CatalogErrorView::Corruption(
                reference_problem(keyed_view(canvases@), id@, missing@)->0,
            ),
        },
{
    match find_canvas(canvases, id) {
        Some(row) => load_canvas(row),
        None => Err(corruption(missing)),
    }
}

/// What is wrong with a Page of a Document of a Session: its Canvas has to be stored, and to have
/// the Session and the size of the Page.
pub open spec fn page_link_problem(
    canvases: Seq<KeyedCanvasView>,
    session_id: Seq<char>,
    page: PageDescriptorView,
) -> Option<Seq<char>> {
    let problem = reference_problem(
        canvases,
        page.overlay_canvas_id,
        "Document Page references missing Canvas"@,
    );
    let canvas = canvas_of(canvas_at(canvases, page.overlay_canvas_id)->0);
    if problem is Some {
        problem
    } else if canvas.session_id != session_id || canvas.width != page.width || canvas.height
        != page.height {
        Some("Document Page and Canvas descriptor mismatch"@)
    } else {
        None
    }
}

/// What is wrong with the Pages from the one at `index` on: the first problem counts.
pub open spec fn links_problem(
    canvases: Seq<KeyedCanvasView>,
    document: DocumentView,
    index: int,
) -> Option<Seq<char>>
    decreases document.pages.len() - index,
{
    if index < 0 || index >= document.pages.len() {
        None
    } else if page_link_problem(canvases, document.session_id, document.pages[index]) is Some {
        page_link_problem(canvases, document.session_id, document.pages[index])
    } else {
        links_problem(canvases, document, index + 1)
    }
}

/// What is wrong with a Document row of the scan, where its place in the order of publication has
/// to be `expected` or later.
pub open spec fn document_scan_problem(
    canvases: Seq<KeyedCanvasView>,
    row: DocumentRowView,
    expected: int,
) -> Option<Seq<char>> {
    if row.publication_sequence < 0 || row.publication_sequence < expected {
        Some("invalid Document publication sequence"@)
    } else if row.document_id is None {
        Some("malformed document ID"@)
    } else if row.session_id is None {
        Some("malformed document Session ID"@)
    } else if row.source_asset_id is None {
        Some("malformed source Asset ID"@)
    } else if row.document_type != "pdf"@ {
        Some("unknown Document type"@)
    } else if document_body_problem(row) is Some {
        document_body_problem(row)
    } else {
        links_problem(canvases, document_of(row), 0)
    }
}

/// The least place that may follow `sequence` in the order of publication.
pub open spec fn place_after(sequence: int) -> int {
    if sequence == i64::MAX {
        sequence
    } else {
        sequence + 1
    }
}

/// What is wrong with the Documents from the one at `index` on: the first problem counts.
pub open spec fn documents_problem(
    canvases: Seq<KeyedCanvasView>,
    rows: Seq<DocumentRowView>,
    index: int,
    expected: int,
) -> Option<Seq<char>>
    decreases rows.len() - index,
{
    if index < 0 || index >= rows.len() {
        None
    } else if document_scan_problem(canvases, rows[index], expected) is Some {
        document_scan_problem(canvases, rows[index], expected)
    } else {
        documents_problem(canvases, rows, index + 1, place_after(rows[index].publication_sequence))
    }
}

/// What is wrong with a stored Canvas: it has to be found under its identifier, and to be
/// decodable.
pub open spec fn canvas_scan_problem(
    canvases: Seq<KeyedCanvasView>,
    row: CanvasRowView,
) -> Option<Seq<char>> {
    if row.canvas_id is None {
        Some("malformed Canvas ID"@)
    } else {
        reference_problem(canvases, row.canvas_id->0, "Canvas disappeared during scan"@)
    }
}

/// What is wrong with the Canvases from the one at `index` on: the first problem counts.
pub open spec fn canvases_problem(canvases: Seq<KeyedCanvasView>, index: int) -> Option<Seq<char>>
    decreases canvases.len() - index,
{
    if index < 0 || index >= canvases.len() {
        None
    } else if canvas_scan_problem(canvases, canvases[index].1) is Some {
        canvas_scan_problem(canvases, canvases[index].1)
    } else {
        canvases_problem(canvases, index + 1)
    }
}

/// What is wrong with a binding: its Canvas has to be stored, and to have its Session.
pub open spec fn binding_scan_problem(
    canvases: Seq<KeyedCanvasView>,
    row: BindingRowView,
) -> Option<Seq<char>> {
    let problem = reference_problem(
        canvases,
        row.canvas_id->0,
        "bootstrap binding references missing Canvas"@,
    );
    if binding_problem(row) is Some {
        binding_problem(row)
    } else if problem is Some {
        problem
    } else if canvas_of(canvas_at(canvases, row.canvas_id->0)->0).session_id != row.session_id->0 {
        Some("bootstrap binding Session mismatch"@)
    } else {
        None
    }
}

/// What is wrong with the bindings from the one at `index` on: the first problem counts.
pub open spec fn bindings_problem(
    canvases: Seq<KeyedCanvasView>,
    rows: Seq<BindingRowView>,
    index: int,
) -> Option<Seq<char>>
    decreases rows.len() - index,
{
    if index < 0 || index >= rows.len() {
        None
    } else if binding_scan_problem(canvases, rows[index]) is Some {
        binding_scan_problem(canvases, rows[index])
    } else {
        bindings_problem(canvases, rows, index + 1)
    }
}

/// What is wrong with a catalog: the first problem counts.
pub open spec fn catalog_problem(snapshot: SnapshotView) -> Option<Seq<char>> {
    if !snapshot.foreign_keys_hold {
        Some("Catalog foreign key check failed"@)
    } else if documents_problem(snapshot.canvases, snapshot.documents, 0, 0) is Some {
        documents_problem(snapshot.canvases, snapshot.documents, 0, 0)
    } else if canvases_problem(snapshot.canvases, 0) is Some {
        canvases_problem(snapshot.canvases, 0)
    } else if snapshot.orphan_layers != 0 {
        Some("orphan Layer row"@)
    } else {
        bindings_problem(snapshot.canvases, snapshot.bindings, 0)
    }
}

/// The outcome of a scan that found a first problem, or none.
pub open spec fn scan_outcome(problem: Option<Seq<char>>) -> Result<(), CatalogErrorView> {
    match problem {
        Some(detail) => Err(CatalogErrorView::Corruption(detail)),
        None => Ok(()),
    }
}

fn scan_links(document: &DocumentDescriptor, canvases: &[KeyedCanvas]) -> (r: Result<
    (),
    CatalogStoreError,
>)
    ensures
        catalog_view(r) == scan_outcome(links_problem(keyed_view(canvases@), document@, 0)),
{
    let ghost all = keyed_view(canvases@);
    let pages = document.pages();
    let mut i: usize = 0;
    while i < pages.len()
        invariant
            i <= pages@.len(),
            pages_view(pages@) == document@.pages,
            all == keyed_view(canvases@),
            links_problem(all, document@, 0) == links_problem(all, document@, i as int),
        decreases pages@.len() - i,
    {
        let page = &pages[i];
        assert(document@.pages[i as int] == page@);
        let canvas = match resolve_canvas(
            canvases,
            page.overlay_canvas_id.as_str(),
            "Document Page references missing Canvas",
        ) {
            Ok(canvas) => canvas,
            Err(error) => {
                return Err(error);
            },
        };
        if !same_text(canvas.session_id(), document.session_id()) || canvas.width()
            != page.width || canvas.height() != page.height {
            return Err(corruption("Document Page and Canvas descriptor mismatch"));
        }
        i = i + 1;
    }
    assert(links_problem(all, document@, i as int) is None);
    Ok(())
}

fn scan_documents(documents: Vec<DocumentRow>, canvases: &[KeyedCanvas]) -> (r: Result<
    (),
    CatalogStoreError,
>)
    ensures
        catalog_view(r) == scan_outcome(
            documents_problem(
                keyed_view(canvases@),
                Seq::new(documents@.len(), |i: int| documents@[i]@),
                0,
                0,
            ),
        ),
{
    let ghost all = keyed_view(canvases@);
    let ghost rows = Seq::new(documents@.len(), |i: int| documents@[i]@);
    let mut expected: i64 = 0;
    for row in it: documents
        invariant
            it.seq() == documents@,
            all == keyed_view(canvases@),
            rows == Seq::new(documents@.len(), |i: int| documents@[i]@),
            documents_problem(all, rows, 0, 0) == documents_problem(
                all,
                rows,
                it.index(),
                expected as int,
            ),
    {
        let ghost index = it.index();
        assert(rows[index] == row@);
        if row.publication_sequence < 0 || row.publication_sequence < expected {
            return Err(corruption("invalid Document publication sequence"));
        }
        expected = match row.publication_sequence.checked_add(1) {
            Some(next) => next,
            None => row.publication_sequence,
        };
        if row.document_id.is_none() {
            return Err(corruption("malformed document ID"));
        }
        if row.session_id.is_none() {
            return Err(corruption("malformed document Session ID"));
        }
        if row.source_asset_id.is_none() {
            return Err(corruption("malformed source Asset ID"));
        }
        if !same_text(row.document_type.as_str(), "pdf") {
            return Err(corruption("unknown Document type"));
        }
        let document = match load_document(row) {
            Ok(document) => document,
            Err(error) => {
                return Err(error);
            },
        };
        match scan_links(&document, canvases) {
            Ok(_) => {},
            Err(error) => {
                return Err(error);
            },
        }
    }
    Ok(())
}

fn scan_canvases(canvases: &[KeyedCanvas]) -> (r: Result<(), CatalogStoreError>)
    ensures
        catalog_view(r) == scan_outcome(canvases_problem(keyed_view(canvases@), 0)),
{
    let ghost all = keyed_view(canvases@);
    let mut i: usize = 0;
    while i < canvases.len()
        invariant
            i <= canvases@.len(),
            all == keyed_view(canvases@),
            canvases_problem(all, 0) == canvases_problem(all, i as int),
        decreases canvases@.len() - i,
    {
        assert(all[i as int] == canvases@[i as int]@);
        match &canvases[i].row.canvas_id {
            None => {
                return Err(corruption("malformed Canvas ID"));
            },
            Some(id) => match resolve_canvas(
                canvases,
                id.as_str(),
                "Canvas disappeared during scan",
            ) {
                Ok(_) => {},
                Err(error) => {
                    return Err(error);
                },
            },
        }
        i = i + 1;
    }
    Ok(())
}

fn scan_bindings(bindings: &[BindingRow], canvases: &[KeyedCanvas]) -> (r: Result<
    (),
    CatalogStoreError,
>)
    ensures
        catalog_view(r) == scan_outcome(
            bindings_problem(
                keyed_view(canvases@),
                Seq::new(bindings@.len(), |i: int| bindings@[i]@),
                0,
            ),
        ),
{
    let ghost all = keyed_view(canvases@);
    let ghost rows = Seq::new(bindings@.len(), |i: int| bindings@[i]@);
    let mut i: usize = 0;
    while i < bindings.len()
        invariant
            i <= bindings@.len(),
            all == keyed_view(canvases@),
            rows == Seq::new(bindings@.len(), |i: int| bindings@[i]@),
            bindings_problem(all, rows, 0) == bindings_problem(all, rows, i as int),
        decreases bindings@.len() - i,
    {
        assert(rows[i as int] == bindings@[i as int]@);
        let session_id = match &bindings[i].session_id {
            Some(session_id) => session_id,
            None => {
                return Err(corruption("malformed bootstrap Session ID"));
            },
        };
        let canvas_id = match &bindings[i].canvas_id {
            Some(canvas_id) => canvas_id,
            None => {
                return Err(corruption("malformed bootstrap Canvas ID"));
            },
        };
        let canvas = match resolve_canvas(
            canvases,
            canvas_id.as_str(),
            "bootstrap binding references missing Canvas",
        ) {
            Ok(canvas) => canvas,
            Err(error) => {
                return Err(error);
            },
        };
        if !same_text(canvas.session_id(), session_id.as_str()) {
            return Err(corruption("bootstrap binding Session mismatch"));
        }
        i = i + 1;
    }
    Ok(())
}

/// Scans a whole catalog: every row has to be decodable, and every reference to hold.
pub fn scan_integrity(snapshot: CatalogSnapshot) -> (r: Result<(), CatalogStoreError>)
    ensures
        catalog_view(r) == scan_outcome(catalog_problem(snapshot@)),
{
    if !snapshot.foreign_keys_hold {
        return Err(corruption("Catalog foreign key check failed"));
    }
    match scan_documents(snapshot.documents, snapshot.canvases.as_slice()) {
        Ok(_) => {},
        Err(error) => {
            return Err(error);
        },
    }
    match scan_canvases(snapshot.canvases.as_slice()) {
        Ok(_) => {},
        Err(error) => {
            return Err(error);
        },
    }
    if snapshot.orphan_layers != 0 {
        return Err(corruption("orphan Layer row"));
    }
    scan_bindings(snapshot.bindings.as_slice(), snapshot.canvases.as_slice())
}

/// Adding Canvases behind those that are stored does not change what is found.
proof fn lemma_canvas_at_grows(
    canvases: Seq<KeyedCanvasView>,
    added: Seq<KeyedCanvasView>,
    id: Seq<char>,
)
    ensures
        canvas_at(canvases, id) is Some ==> canvas_at(canvases + added, id) == canvas_at(
            canvases,
            id,
        ),
        canvas_at(canvases, id) is None ==> canvas_at(canvases + added, id) == canvas_at(added, id),
    decreases canvases.len(),
{
    if canvases.len() == 0 {
        assert(canvases + added =~= added);
    } else {
        lemma_canvas_at_grows(canvases.skip(1), added, id);
        assert((canvases + added).skip(1) =~= canvases.skip(1) + added);
    }
}

proof fn lemma_links_grow(
    canvases: Seq<KeyedCanvasView>,
    added: Seq<KeyedCanvasView>,
    document: DocumentView,
    index: int,
)
    requires
        0 <= index,
        links_problem(canvases, document, index) is None,
    ensures
        links_problem(canvases + added, document, index) is None,
    decreases document.pages.len() - index,
{
    if index < document.pages.len() {
        lemma_canvas_at_grows(canvases, added, document.pages[index].overlay_canvas_id);
        lemma_links_grow(canvases, added, document, index + 1);
    }
}

/// The least place that may follow the Documents in the order of publication.
pub open spec fn next_place(rows: Seq<DocumentRowView>, index: int, expected: int) -> int
    decreases rows.len() - index,
{
    if index < 0 || index >= rows.len() {
        expected
    } else {
        next_place(rows, index + 1, place_after(rows[index].publication_sequence))
    }
}

proof fn lemma_documents_grow(
    canvases: Seq<KeyedCanvasView>,
    added: Seq<KeyedCanvasView>,
    rows: Seq<DocumentRowView>,
    row: DocumentRowView,
    index: int,
    expected: int,
)
    requires
        0 <= index <= rows.len(),
        documents_problem(canvases, rows, index, expected) is None,
        document_scan_problem(canvases + added, row, next_place(rows, index, expected)) is None,
    ensures
        documents_problem(canvases + added, rows.push(row), index, expected) is None,
    decreases rows.len() - index,
{
    let after = rows.push(row);
    if index < rows.len() {
        assert(after[index] == rows[index]);
        lemma_links_grow(canvases, added, document_of(rows[index]), 0);
        lemma_documents_grow(
            canvases,
            added,
            rows,
            row,
            index + 1,
            place_after(rows[index].publication_sequence),
        );
    } else {
        assert(after[index] == row);
        assert(documents_problem(
            canvases + added,
            after,
            index + 1,
            place_after(row.publication_sequence),
        ) is None);
    }
}

proof fn lemma_bindings_grow(
    canvases: Seq<KeyedCanvasView>,
    added: Seq<KeyedCanvasView>,
    rows: Seq<BindingRowView>,
    index: int,
)
    requires
        0 <= index,
        bindings_problem(canvases, rows, index) is None,
    ensures
        bindings_problem(canvases + added, rows, index) is None,
    decreases rows.len() - index,
{
    if index < rows.len() {
        lemma_canvas_at_grows(canvases, added, rows[index].canvas_id->0);
        lemma_bindings_grow(canvases, added, rows, index + 1);
    }
}

/// Whether the rows are those that are written for the Canvases, under keys that differ from each
/// other and from all that are stored.
pub open spec fn are_new_canvases(
    canvases: Seq<KeyedCanvasView>,
    added: Seq<KeyedCanvasView>,
    written: Seq<CanvasView>,
) -> bool {
    &&& added.len() == written.len()
    &&& forall|i: int|
        0 <= i < added.len() ==> {
            let canvas = written[i];
            &&& (#[trigger] added[i]).0 == canvas.canvas_id
            &&& is_encoded_canvas(added[i].1, canvas)
            &&& canvas.is_valid()
            &&& canvas_at(canvases, canvas.canvas_id) is None
        }
    &&& forall|i: int, j: int|
        0 <= i < j < written.len() ==> (#[trigger] written[i]).canvas_id != (
        #[trigger] written[j]).canvas_id
}

/// A new Canvas is found under its identifier.
proof fn lemma_new_canvas_is_found(
    canvases: Seq<KeyedCanvasView>,
    added: Seq<KeyedCanvasView>,
    written: Seq<CanvasView>,
    i: int,
)
    requires
        are_new_canvases(canvases, added, written),
        0 <= i < added.len(),
    ensures
        canvas_at(canvases + added, written[i].canvas_id) == Some(added[i].1),
        canvas_problem(added[i].1) is None,
        canvas_of(added[i].1) == written[i],
{
    assert(added[i].0 == written[i].canvas_id);
    lemma_canvas_at_grows(canvases, added, written[i].canvas_id);
    lemma_found_in_added(canvases, added, written, i, 0);
    assert(added.skip(0) =~= added);
    law_published_canvas_is_read_back(written[i], added[i].1);
}

proof fn lemma_found_in_added(
    canvases: Seq<KeyedCanvasView>,
    added: Seq<KeyedCanvasView>,
    written: Seq<CanvasView>,
    i: int,
    k: int,
)
    requires
        are_new_canvases(canvases, added, written),
        0 <= k <= i < added.len(),
    ensures
        canvas_at(added.skip(k), written[i].canvas_id) == Some(added[i].1),
    decreases i - k,
{
    let rest = added.skip(k);
    assert(rest[0] == added[k]);
    assert(added[k].0 == written[k].canvas_id);
    if k < i {
        assert(written[k].canvas_id != written[i].canvas_id);
        lemma_found_in_added(canvases, added, written, i, k + 1);
        assert(rest.skip(1) =~= added.skip(k + 1));
    }
}

proof fn lemma_canvases_grow(
    canvases: Seq<KeyedCanvasView>,
    added: Seq<KeyedCanvasView>,
    written: Seq<CanvasView>,
    index: int,
)
    requires
        0 <= index <= canvases.len() + added.len(),
        are_new_canvases(canvases, added, written),
        canvases_problem(canvases, index) is None,
    ensures
        canvases_problem(canvases + added, index) is None,
    decreases canvases.len() + added.len() - index,
{
    let after = canvases + added;
    if index < after.len() {
        if index < canvases.len() {
            assert(after[index] == canvases[index]);
            lemma_canvas_at_grows(canvases, added, canvases[index].1.canvas_id->0);
        } else {
            let i = index - canvases.len();
            assert(after[index] == added[i]);
            lemma_new_canvas_is_found(canvases, added, written, i);
            assert(is_encoded_canvas(added[i].1, written[i]));
        }
        lemma_canvases_grow(canvases, added, written, index + 1);
    }
}

/// Whether every Page of the Document is overlaid by one of the Canvases, with the Session of the
/// Document and the size of the Page.
pub open spec fn is_composed(composition: CompositionView) -> bool {
    forall|p: int|
        0 <= p < composition.document.pages.len() ==> exists|c: int|
            0 <= c < composition.canvases.len() && overlays(
                #[trigger] composition.canvases[c],
                composition.document.session_id,
                #[trigger] composition.document.pages[p],
            )
}

/// Whether the Canvas overlays the Page of a Document of the Session.
pub open spec fn overlays(canvas: CanvasView, session_id: Seq<char>, page: PageDescriptorView) -> bool {
    &&& canvas.canvas_id == page.overlay_canvas_id
    &&& canvas.session_id == session_id
    &&& canvas.width == page.width
    &&& canvas.height == page.height
}

proof fn lemma_new_links_hold(
    canvases: Seq<KeyedCanvasView>,
    added: Seq<KeyedCanvasView>,
    composition: CompositionView,
    index: int,
)
    requires
        0 <= index <= composition.document.pages.len(),
        are_new_canvases(canvases, added, composition.canvases),
        is_composed(composition),
    ensures
        links_problem(canvases + added, composition.document, index) is None,
    decreases composition.document.pages.len() - index,
{
    if index < composition.document.pages.len() {
        let page = composition.document.pages[index];
        let c = choose|c: int|
            0 <= c < composition.canvases.len() && overlays(
                #[trigger] composition.canvases[c],
                composition.document.session_id,
                page,
            );
        lemma_new_canvas_is_found(canvases, added, composition.canvases, c);
        lemma_new_links_hold(canvases, added, composition, index + 1);
    }
}

/// Publishing a composition keeps the catalog sound: where a scan finds nothing wrong, it finds
/// nothing wrong after the rows of a new composition were added, at a later place in the order of
/// publication.
pub proof fn law_publication_keeps_integrity(
    snapshot: SnapshotView,
    composition: CompositionView,
    added: Seq<KeyedCanvasView>,
    sequence: int,
)
    requires
        catalog_problem(snapshot) is None,
        is_composed(composition),
        are_new_canvases(snapshot.canvases, added, composition.canvases),
        composition.document.is_valid(),
        0 <= sequence,
        next_place(snapshot.documents, 0, 0) <= sequence,
    ensures
        catalog_problem(
            SnapshotView {
                documents: snapshot.documents.push(encoded_document(composition.document, sequence)),
                canvases: snapshot.canvases + added,
                ..snapshot
            },
        ) is None,
{
    let row = encoded_document(composition.document, sequence);
    law_published_document_is_read_back(composition.document, sequence);
    lemma_new_links_hold(snapshot.canvases, added, composition, 0);
    lemma_documents_grow(snapshot.canvases, added, snapshot.documents, row, 0, 0);
    lemma_canvases_grow(snapshot.canvases, added, composition.canvases, 0);
    lemma_bindings_grow(snapshot.canvases, added, snapshot.bindings, 0);
}

proof fn lemma_documents_stay(
    canvases: Seq<KeyedCanvasView>,
    added: Seq<KeyedCanvasView>,
    rows: Seq<DocumentRowView>,
    index: int,
    expected: int,
)
    requires
        0 <= index,
        documents_problem(canvases, rows, index, expected) is None,
    ensures
        documents_problem(canvases + added, rows, index, expected) is None,
    decreases rows.len() - index,
{
    if index < rows.len() {
        lemma_links_grow(canvases, added, document_of(rows[index]), 0);
        lemma_documents_stay(
            canvases,
            added,
            rows,
            index + 1,
            place_after(rows[index].publication_sequence),
        );
    }
}

/// Publishing a Canvas of its own keeps the catalog sound: where a scan finds nothing wrong, it
/// finds nothing wrong after the rows of the Canvas were added.
pub proof fn law_standalone_publication_keeps_integrity(
    snapshot: SnapshotView,
    canvas: CanvasView,
    row: CanvasRowView,
    taken: Seq<Seq<char>>,
)
    requires
        catalog_problem(snapshot) is None,
        standalone_verdict(canvas, canvas_at(snapshot.canvases, canvas.canvas_id), taken) == Ok::<
            CatalogPublishOutcome,
            CatalogErrorView,
        >(CatalogPublishOutcome::Inserted),
        is_encoded_canvas(row, canvas),
        canvas.is_valid(),
    ensures
        catalog_problem(
            SnapshotView { canvases: snapshot.canvases.push((canvas.canvas_id, row)), ..snapshot },
        ) is None,
{
    let added: Seq<KeyedCanvasView> = seq![(canvas.canvas_id, row)];
    assert(snapshot.canvases.push((canvas.canvas_id, row)) =~= snapshot.canvases + added);
    assert(are_new_canvases(snapshot.canvases, added, seq![canvas]));
    lemma_documents_stay(snapshot.canvases, added, snapshot.documents, 0, 0);
    lemma_canvases_grow(snapshot.canvases, added, seq![canvas], 0);
    lemma_bindings_grow(snapshot.canvases, added, snapshot.bindings, 0);
}

proof fn lemma_bindings_push(
    canvases: Seq<KeyedCanvasView>,
    rows: Seq<BindingRowView>,
    row: BindingRowView,
    index: int,
)
    requires
        0 <= index <= rows.len(),
        bindings_problem(canvases, rows, index) is None,
        binding_scan_problem(canvases, row) is None,
    ensures
        bindings_problem(canvases, rows.push(row), index) is None,
    decreases rows.len() - index,
{
    let after = rows.push(row);
    if index < rows.len() {
        assert(after[index] == rows[index]);
        lemma_bindings_push(canvases, rows, row, index + 1);
    } else {
        assert(after[index] == row);
        assert(bindings_problem(canvases, after, index + 1) is None);
    }
}

/// Publishing a Canvas together with its binding keeps the catalog sound, whether the Canvas is new
/// or stored already: where a scan finds nothing wrong, it finds nothing wrong afterwards.
pub proof fn law_bound_publication_keeps_integrity(
    snapshot: SnapshotView,
    canvas: CanvasView,
    row: CanvasRowView,
    binding: BootstrapBindingView,
    step: BindingStep,
)
    requires
        catalog_problem(snapshot) is None,
        binding_verdict(canvas, binding, None, canvas_at(snapshot.canvases, canvas.canvas_id))
            == Ok::<BindingStep, CatalogErrorView>(step),
        is_encoded_canvas(row, canvas),
        canvas.is_valid(),
    ensures
        catalog_problem(
            SnapshotView {
                canvases: if step == BindingStep::InsertAndBind {
                    snapshot.canvases.push((canvas.canvas_id, row))
                } else {
                    snapshot.canvases
                },
                bindings: snapshot.bindings.push(
                    BindingRowView {
                        session_id: Some(binding.session_id),
                        canvas_id: Some(binding.canvas_id),
                    },
                ),
                ..snapshot
            },
        ) is None,
{
    let bound = BindingRowView {
        session_id: Some(binding.session_id),
        canvas_id: Some(binding.canvas_id),
    };
    if step == BindingStep::InsertAndBind {
        let added: Seq<KeyedCanvasView> = seq![(canvas.canvas_id, row)];
        let after = snapshot.canvases.push((canvas.canvas_id, row));
        assert(after =~= snapshot.canvases + added);
        assert(are_new_canvases(snapshot.canvases, added, seq![canvas]));
        lemma_documents_stay(snapshot.canvases, added, snapshot.documents, 0, 0);
        lemma_canvases_grow(snapshot.canvases, added, seq![canvas], 0);
        lemma_bindings_grow(snapshot.canvases, added, snapshot.bindings, 0);
        lemma_new_canvas_is_found(snapshot.canvases, added, seq![canvas], 0);
        lemma_bindings_push(after, snapshot.bindings, bound, 0);
    } else {
        lemma_bindings_push(snapshot.canvases, snapshot.bindings, bound, 0);
    }
}

/// In a catalog in which a scan finds nothing wrong, the Canvas of every Page of every Document is
/// stored and decodable, and has the Session of the Document and the size of the Page.
pub proof fn law_sound_catalog_has_every_overlay(snapshot: SnapshotView, d: int, p: int)
    requires
        catalog_problem(snapshot) is None,
        0 <= d < snapshot.documents.len(),
        0 <= p < document_of(snapshot.documents[d]).pages.len(),
    ensures
        document_problem(snapshot.documents[d]) is None,
        ({
            let document = document_of(snapshot.documents[d]);
            let page = document.pages[p];
            let found = canvas_at(snapshot.canvases, page.overlay_canvas_id);
            &&& found is Some
            &&& canvas_problem(found->0) is None
            &&& canvas_of(found->0).session_id == document.session_id
            &&& canvas_of(found->0).width == page.width
            &&& canvas_of(found->0).height == page.height
        }),
{
    lemma_documents_scanned(snapshot.canvases, snapshot.documents, 0, 0, d);
    lemma_links_scanned(snapshot.canvases, document_of(snapshot.documents[d]), 0, p);
}

/// In a catalog in which a scan finds nothing wrong, every Document is decodable, has as many Pages
/// as its row tells, at least one, and comes behind the Documents before it in the order of
/// publication; places are told up to the greatest one.
pub proof fn law_sound_catalog_has_ordered_documents(snapshot: SnapshotView, d: int, e: int)
    requires
        catalog_problem(snapshot) is None,
        0 <= d < e <= snapshot.documents.len(),
    ensures
        document_problem(snapshot.documents[d]) is None,
        snapshot.documents[d].publication_sequence >= 0,
        0 < snapshot.documents[d].page_count == document_of(snapshot.documents[d]).pages.len(),
        e < snapshot.documents.len() ==> place_after(snapshot.documents[d].publication_sequence)
            <= snapshot.documents[e].publication_sequence,
        e < snapshot.documents.len() ==> {
            let before = snapshot.documents[d].publication_sequence;
            let after = snapshot.documents[e].publication_sequence;
            before < after || (before == i64::MAX && after >= i64::MAX)
        },
    decreases e - d,
{
    lemma_documents_scanned(snapshot.canvases, snapshot.documents, 0, 0, d);
    if e < snapshot.documents.len() {
        lemma_documents_scanned(snapshot.canvases, snapshot.documents, 0, 0, e);
        if d + 1 < e {
            law_sound_catalog_has_ordered_documents(snapshot, d, e - 1);
        }
    }
}

/// In a catalog in which a scan finds nothing wrong, what stands under the identifier of every
/// stored Canvas is decodable, with as many Layers as its row tells, at least one, and its default
/// Layer among them; and that is the row of the Canvas itself where every row stands under its own
/// identifier and no two under the same.
pub proof fn law_sound_catalog_has_every_layer(snapshot: SnapshotView, c: int)
    requires
        catalog_problem(snapshot) is None,
        0 <= c < snapshot.canvases.len(),
    ensures
        snapshot.orphan_layers == 0,
        snapshot.canvases[c].1.canvas_id is Some,
        ({
            let id = snapshot.canvases[c].1.canvas_id->0;
            let found = canvas_at(snapshot.canvases, id);
            &&& found is Some
            &&& canvas_problem(found->0) is None
            &&& 0 < found->0.layer_count == canvas_of(found->0).layer_ids.len()
            &&& canvas_of(found->0).layer_ids.contains(canvas_of(found->0).default_layer_id)
            &&& snapshot.canvases[c].0 == id && (forall|i: int|
                0 <= i < snapshot.canvases.len() && i != c ==> (#[trigger] snapshot.canvases[i]).0
                    != id) ==> found->0 == snapshot.canvases[c].1
        }),
{
    lemma_canvases_scanned(snapshot.canvases, 0, c);
    let id = snapshot.canvases[c].1.canvas_id->0;
    if snapshot.canvases[c].0 == id && (forall|i: int|
        0 <= i < snapshot.canvases.len() && i != c ==> (#[trigger] snapshot.canvases[i]).0 != id) {
        lemma_canvas_found(snapshot.canvases, c);
    }
}

/// In a catalog in which a scan finds nothing wrong, the Canvas of every binding is stored and
/// decodable, and has the Session of the binding.
pub proof fn law_sound_catalog_has_every_bound_canvas(snapshot: SnapshotView, b: int)
    requires
        catalog_problem(snapshot) is None,
        0 <= b < snapshot.bindings.len(),
    ensures
        binding_problem(snapshot.bindings[b]) is None,
        ({
            let found = canvas_at(snapshot.canvases, snapshot.bindings[b].canvas_id->0);
            &&& found is Some
            &&& canvas_problem(found->0) is None
            &&& canvas_of(found->0).session_id == snapshot.bindings[b].session_id->0
        }),
{
    lemma_bindings_scanned(snapshot.canvases, snapshot.bindings, 0, b);
}

proof fn lemma_canvas_found(canvases: Seq<KeyedCanvasView>, c: int)
    requires
        0 <= c < canvases.len(),
        forall|i: int|
            0 <= i < canvases.len() && i != c ==> (#[trigger] canvases[i]).0 != canvases[c].0,
    ensures
        canvas_at(canvases, canvases[c].0) == Some(canvases[c].1),
    decreases c,
{
    if c > 0 {
        let rest = canvases.skip(1);
        assert(rest[c - 1] == canvases[c]);
        assert forall|i: int| 0 <= i < rest.len() && i != c - 1 implies (#[trigger] rest[i]).0
            != rest[c - 1].0 by {
            assert(rest[i] == canvases[i + 1]);
        }
        lemma_canvas_found(rest, c - 1);
    }
}

proof fn lemma_canvases_scanned(canvases: Seq<KeyedCanvasView>, index: int, c: int)
    requires
        0 <= index <= c < canvases.len(),
        canvases_problem(canvases, index) is None,
    ensures
        canvas_scan_problem(canvases, canvases[c].1) is None,
    decreases c - index,
{
    if index < c {
        lemma_canvases_scanned(canvases, index + 1, c);
    }
}

proof fn lemma_bindings_scanned(
    canvases: Seq<KeyedCanvasView>,
    rows: Seq<BindingRowView>,
    index: int,
    b: int,
)
    requires
        0 <= index <= b < rows.len(),
        bindings_problem(canvases, rows, index) is None,
    ensures
        binding_scan_problem(canvases, rows[b]) is None,
    decreases b - index,
{
    if index < b {
        lemma_bindings_scanned(canvases, rows, index + 1, b);
    }
}

proof fn lemma_documents_scanned(
    canvases: Seq<KeyedCanvasView>,
    rows: Seq<DocumentRowView>,
    index: int,
    expected: int,
    d: int,
)
    requires
        0 <= index <= d < rows.len(),
        documents_problem(canvases, rows, index, expected) is None,
    ensures
        document_problem(rows[d]) is None,
        links_problem(canvases, document_of(rows[d]), 0) is None,
        rows[d].publication_sequence >= 0,
        d == index ==> rows[d].publication_sequence >= expected,
        d > index ==> rows[d].publication_sequence >= place_after(
            rows[d - 1].publication_sequence,
        ),
    decreases d - index,
{
    if index < d {
        lemma_documents_scanned(
            canvases,
            rows,
            index + 1,
            place_after(rows[index].publication_sequence),
            d,
        );
    }
}

proof fn lemma_links_scanned(
    canvases: Seq<KeyedCanvasView>,
    document: DocumentView,
    index: int,
    p: int,
)
    requires
        0 <= index <= p < document.pages.len(),
        links_problem(canvases, document, index) is None,
    ensures
        page_link_problem(canvases, document.session_id, document.pages[p]) is None,
    decreases p - index,
{
    if index < p {
        lemma_links_scanned(canvases, document, index + 1, p);
    }
}

/// A catalog in which a scan finds nothing wrong has intact foreign keys and no Layer without a
/// Canvas.
pub proof fn law_sound_catalog_has_no_loose_ends(snapshot: SnapshotView)
    requires
        catalog_problem(snapshot) is None,
    ensures
        snapshot.foreign_keys_hold,
        snapshot.orphan_layers == 0,
{
}

/// The Canvas found under an identifier is the first one that is stored under it.
pub proof fn law_canvases_are_found_by_their_key(
    first: KeyedCanvasView,
    rest: Seq<KeyedCanvasView>,
    id: Seq<char>,
)
    ensures
        canvas_at(Seq::empty(), id) is None,
        canvas_at(seq![first] + rest, id) == if first.0 == id {
            Some(first.1)
        } else {
            canvas_at(rest, id)
        },
{
    assert((seq![first] + rest).skip(1) =~= rest);
}

/// What a scan tells of a link that does not hold: a Canvas that is missing, that has another
/// Session or another size than the Page, or another Session than the binding; and of a Document
/// that is out of its place.
pub proof fn law_broken_links_are_named(
    canvases: Seq<KeyedCanvasView>,
    session_id: Seq<char>,
    page: PageDescriptorView,
    binding: BindingRowView,
    row: DocumentRowView,
)
    requires
        binding_problem(binding) is None,
    ensures
        canvas_at(canvases, page.overlay_canvas_id) is None ==> page_link_problem(
            canvases,
            session_id,
            page,
        ) == Some("Document Page references missing Canvas"@),
        canvas_at(canvases, page.overlay_canvas_id) matches Some(found) ==> canvas_problem(
            found,
        ) is None ==> page_link_problem(canvases, session_id, page)
            == if canvas_of(found).session_id
            == session_id && canvas_of(found).width == page.width && canvas_of(found).height
            == page.height {
            None
        } else {
            Some("Document Page and Canvas descriptor mismatch"@)
        },
        canvas_at(canvases, binding.canvas_id->0) is None
            ==> binding_scan_problem(canvases, binding)
            == Some("bootstrap binding references missing Canvas"@),
        canvas_at(canvases, binding.canvas_id->0) matches Some(found) ==> canvas_problem(
            found,
        ) is None ==> binding_scan_problem(canvases, binding) == if canvas_of(found).session_id
            == binding.session_id->0 {
            None
        } else {
            Some("bootstrap binding Session mismatch"@)
        },
        document_scan_problem(
            canvases,
            DocumentRowView { publication_sequence: -1, ..row },
            0,
        ) == Some("invalid Document publication sequence"@),
        document_scan_problem(canvases, row, row.publication_sequence + 1) == Some(
            "invalid Document publication sequence"@,
        ),
{
}

/// What a scan tells of a catalog as a whole.
pub proof fn law_loose_ends_are_named(snapshot: SnapshotView)
    requires
        catalog_problem(snapshot) is None,
    ensures
        catalog_problem(SnapshotView { foreign_keys_hold: false, ..snapshot }) == Some(
            "Catalog foreign key check failed"@,
        ),
        catalog_problem(SnapshotView { orphan_layers: 1, ..snapshot }) == Some("orphan Layer row"@),
{
}

/// A scan fails as corrupt with the first problem, and passes where there is none; the Canvases
/// that it reads show what they hold, in their order.
pub proof fn law_scans_report_what_they_find(problem: Seq<char>, canvases: Seq<KeyedCanvas>)
    ensures
        scan_outcome(None) == Ok::<(), CatalogErrorView>(()),
        scan_outcome(Some(problem)) == Err::<(), CatalogErrorView>(
            CatalogErrorView::Corruption(problem),
        ),
        keyed_view(canvases).len() == canvases.len(),
        forall|i: int| 0 <= i < canvases.len() ==> #[trigger] keyed_view(canvases)[i]
            == canvases[i]@,
{
}

} // verus!
