//! Decisions of the persistent Document and Canvas catalog: its errors, its rows and how they are
//! decoded.

use vstd::prelude::*;

use crate::config::Dimension;
use crate::event_store::SendFault;
use crate::text::{chars_of, decimal, optional_text, parse_signed, same_text, signed_value};
use crate::text_set::TextSet;

verus! {

/// The first Catalog schema supported by this adapter.
pub const SUPPORTED_SCHEMA_VERSION: i64 = 1;

/// Default bounded Catalog worker queue capacity.
pub const DEFAULT_COMMAND_QUEUE_CAPACITY: usize = 128;

/// The key of the default Development standalone Canvas binding.
pub const BOOTSTRAP_DEFAULT_CANVAS: &'static str = "development/default_canvas";

/// Returns the default Development standalone Canvas binding key.
pub fn default_bootstrap_binding_key() -> (r: &'static str)
    ensures
        r@ == BOOTSTRAP_DEFAULT_CANVAS@,
{
    BOOTSTRAP_DEFAULT_CANVAS
}

/// The result of an immutable Catalog publication.
#[derive(Clone, Copy, Debug, PartialEq, Eq, Structural)]
pub enum CatalogPublishOutcome {
    /// A new immutable graph was committed.
    Inserted,
    /// The exact same graph was already committed.
    Existing,
    /// An immutable identity conflicts with the supplied graph.
    Conflict,
}

/// A private Development bootstrap binding persisted by the Catalog adapter.
#[derive(Debug, PartialEq, Eq)]
pub struct BootstrapBinding {
    /// The bound Development Session identity.
    pub session_id: String,
    /// The bound Development Canvas identity.
    pub canvas_id: String,
}

/// The contents of [`BootstrapBinding`].
pub struct BootstrapBindingView {
    /// The bound Development Session identity.
    pub session_id: Seq<char>,
    /// The bound Development Canvas identity.
    pub canvas_id: Seq<char>,
}

impl View for BootstrapBinding {
    type V = BootstrapBindingView;

    open spec fn view(&self) -> BootstrapBindingView {
        BootstrapBindingView { session_id: self.session_id@, canvas_id: self.canvas_id@ }
    }
}

/// Errors produced by Catalog persistence and recovery.
#[derive(Debug, PartialEq, Eq)]
#[non_exhaustive]
#[allow(inconsistent_fields)]
pub enum CatalogStoreError {
    /// A worker queue capacity was invalid.
    InvalidQueueCapacity,
    /// The worker or database is unavailable.
    Unavailable {
        /// Stable backend-neutral detail.
        detail: &'static str,
    },
    /// SQLite returned a backend error.
    Backend {
        /// Safe SQLite diagnostic.
        detail: String,
    },
    /// A persisted row or graph violates an invariant.
    Corruption {
        /// Stable corruption category.
        detail: &'static str,
    },
    /// The database schema cannot be served by this adapter.
    Schema {
        /// Stable schema compatibility category.
        detail: &'static str,
    },
    /// An immutable identity conflicts with existing content.
    Conflict,
    /// The supplied graph was invalid before persistence.
    InvalidGraph {
        /// Stable graph validation category.
        detail: &'static str,
    },
}

/// What a Catalog error says.
pub enum CatalogErrorView {
    /// A worker queue capacity was invalid.
    InvalidQueueCapacity,
    /// The worker or database is unavailable.
    Unavailable(Seq<char>),
    /// SQLite returned a backend error.
    Backend(Seq<char>),
    /// A persisted row or graph violates an invariant.
    Corruption(Seq<char>),
    /// The database schema cannot be served by this adapter.
    Schema(Seq<char>),
    /// An immutable identity conflicts with existing content.
    Conflict,
    /// The supplied graph was invalid before persistence.
    InvalidGraph(Seq<char>),
}

impl View for CatalogStoreError {
    type V = CatalogErrorView;

    open spec fn view(&self) -> CatalogErrorView {
        match *self {
            CatalogStoreError::InvalidQueueCapacity => CatalogErrorView::InvalidQueueCapacity,
            CatalogStoreError::Unavailable { detail } => CatalogErrorView::Unavailable(detail@),
            CatalogStoreError::Backend { detail } => CatalogErrorView::Backend(detail@),
            CatalogStoreError::Corruption { detail } => CatalogErrorView::Corruption(detail@),
            CatalogStoreError::Schema { detail } => CatalogErrorView::Schema(detail@),
            CatalogStoreError::Conflict => CatalogErrorView::Conflict,
            CatalogStoreError::InvalidGraph { detail } => CatalogErrorView::InvalidGraph(detail@),
        }
    }
}

impl CatalogErrorView {
    /// The error in words.
    pub open spec fn shown(self) -> Seq<char> {
        match self {
            CatalogErrorView::InvalidQueueCapacity =>
            "catalog command queue capacity must be greater than zero"@,
            CatalogErrorView::Unavailable(detail) => "catalog backend unavailable: "@ + detail,
            CatalogErrorView::Backend(detail) => "catalog backend failure: "@ + detail,
            CatalogErrorView::Corruption(detail) => "catalog persistence corruption: "@ + detail,
            CatalogErrorView::Schema(detail) => "catalog schema is incompatible: "@ + detail,
            CatalogErrorView::Conflict => "catalog immutable identity conflict"@,
            CatalogErrorView::InvalidGraph(detail) => "catalog graph is invalid: "@ + detail,
        }
    }
}

impl CatalogStoreError {
    /// Returns the error in words.
    pub fn message(&self) -> (r: String)
        ensures
            r@ == self@.shown(),
    {
        match self {
            CatalogStoreError::InvalidQueueCapacity =>
            "catalog command queue capacity must be greater than zero".to_owned(),
            CatalogStoreError::Unavailable { detail } =>
            "catalog backend unavailable: ".to_owned().concat(detail),
            CatalogStoreError::Backend { detail } => "catalog backend failure: ".to_owned().concat(
                detail.as_str(),
            ),
            CatalogStoreError::Corruption { detail } =>
            "catalog persistence corruption: ".to_owned().concat(detail),
            CatalogStoreError::Schema { detail } =>
            "catalog schema is incompatible: ".to_owned().concat(detail),
            CatalogStoreError::Conflict => "catalog immutable identity conflict".to_owned(),
            CatalogStoreError::InvalidGraph { detail } =>
            "catalog graph is invalid: ".to_owned().concat(detail),
        }
    }
}

impl CatalogStoreError {
    /// Returns a copy of the error.
    pub fn copy(&self) -> (r: CatalogStoreError)
        ensures
            r@ == self@,
    {
        match self {
            CatalogStoreError::InvalidQueueCapacity => CatalogStoreError::InvalidQueueCapacity,
            CatalogStoreError::Unavailable { detail } => CatalogStoreError::Unavailable {
                detail: *detail,
            },
            CatalogStoreError::Backend { detail } => CatalogStoreError::Backend {
                detail: detail.clone(),
            },
            CatalogStoreError::Corruption { detail } => CatalogStoreError::Corruption {
                detail: *detail,
            },
            CatalogStoreError::Schema { detail } => CatalogStoreError::Schema { detail: *detail },
            CatalogStoreError::Conflict => CatalogStoreError::Conflict,
            CatalogStoreError::InvalidGraph { detail } => CatalogStoreError::InvalidGraph {
                detail: *detail,
            },
        }
    }
}

/// Returns the error of a worker or database that cannot be reached.
pub fn unavailable(detail: &'static str) -> (r: CatalogStoreError)
    ensures
        r@ == CatalogErrorView::Unavailable(detail@),
{
    CatalogStoreError::Unavailable { detail }
}

/// Returns the error of a row or graph that violates an invariant.
pub fn corruption(detail: &'static str) -> (r: CatalogStoreError)
    ensures
        r@ == CatalogErrorView::Corruption(detail@),
{
    CatalogStoreError::Corruption { detail }
}

/// Maps an error of SQLite, which is told as it is shown.
pub fn map_sqlite(shown: String) -> (r: CatalogStoreError)
    ensures
        r@ == CatalogErrorView::Backend(shown@),
{
    CatalogStoreError::Backend { detail: shown }
}

/// Maps the failure to queue a command.
pub fn map_send_error(fault: SendFault) -> (r: CatalogStoreError)
    ensures
        r@ == CatalogErrorView::Unavailable(
            match fault {
                SendFault::Full => "catalog command queue is full"@,
                SendFault::Closed => "catalog worker is unavailable"@,
            },
        ),
{
    match fault {
        SendFault::Full => unavailable("catalog command queue is full"),
        SendFault::Closed => unavailable("catalog worker is unavailable"),
    }
}

/// The view of a Catalog result whose success is taken as it is.
pub open spec fn catalog_view<T>(r: Result<T, CatalogStoreError>) -> Result<T, CatalogErrorView> {
    match r {
        Ok(value) => Ok(value),
        Err(error) => Err(error@),
    }
}

/// Checks the size of the command queue before the worker starts.
pub fn check_queue_capacity(queue_capacity: usize) -> (r: Result<(), CatalogStoreError>)
    ensures
        match r {
            Ok(_) => queue_capacity > 0,
            Err(error) => queue_capacity == 0 && error@ == CatalogErrorView::InvalidQueueCapacity,
        },
{
    if queue_capacity == 0 {
        return Err(CatalogStoreError::InvalidQueueCapacity);
    }
    Ok(())
}

/// What the stored schema version means: only the supported one is opened.
pub open spec fn schema_verdict(stored: Option<Seq<char>>) -> Result<(), CatalogErrorView> {
    match stored {
        None => Err(CatalogErrorView::Corruption("missing catalog schema version"@)),
        Some(text) => match signed_value(text) {
            None => Err(CatalogErrorView::Corruption("malformed catalog schema version"@)),
            Some(version) => if version > SUPPORTED_SCHEMA_VERSION {
                Err(CatalogErrorView::Schema("schema version is newer than this adapter"@))
            } else if version < SUPPORTED_SCHEMA_VERSION {
                Err(CatalogErrorView::Schema("schema migration is required"@))
            } else {
                Ok(())
            },
        },
    }
}

/// Checks the stored schema version.
pub fn check_schema_version(stored: &Option<String>) -> (r: Result<(), CatalogStoreError>)
    ensures
        catalog_view(r) == schema_verdict(optional_text(*stored)),
{
    match stored {
        None => Err(corruption("missing catalog schema version")),
        Some(text) => {
            let value = chars_of(text.as_str());
            match parse_signed(value.as_slice()) {
                None => Err(corruption("malformed catalog schema version")),
                Some(version) => if version > SUPPORTED_SCHEMA_VERSION {
                    Err(
                        CatalogStoreError::Schema {
                            detail: "schema version is newer than this adapter",
                        },
                    )
                } else if version < SUPPORTED_SCHEMA_VERSION {
                    Err(CatalogStoreError::Schema { detail: "schema migration is required" })
                } else {
                    Ok(())
                },
            }
        },
    }
}

/// Checks the stored physical store identity: whether there is one, and whether it reads as an
/// identity.
pub fn check_physical_store_id(stored: Option<bool>) -> (r: Result<(), CatalogStoreError>)
    ensures
        catalog_view(r) == match stored {
            None => Err::<(), CatalogErrorView>(
                CatalogErrorView::Corruption("missing physical store identity"@),
            ),
            Some(true) => Ok(()),
            Some(false) => Err(
                CatalogErrorView::Corruption("malformed physical store identity"@),
            ),
        },
{
    match stored {
        None => Err(corruption("missing physical store identity")),
        Some(readable) => if readable {
            Ok(())
        } else {
            Err(corruption("malformed physical store identity"))
        },
    }
}

/// Checks what the physical integrity check of the database reported.
pub fn check_integrity_report(report: &str) -> (r: Result<(), CatalogStoreError>)
    ensures
        catalog_view(r) == if report@ == "ok"@ {
            Ok::<(), CatalogErrorView>(())
        } else {
            Err(CatalogErrorView::Corruption("SQLite quick_check failed"@))
        },
{
    if same_text(report, "ok") {
        Ok(())
    } else {
        Err(corruption("SQLite quick_check failed"))
    }
}

/// The kinds of Documents.
#[derive(Clone, Copy, Debug, PartialEq, Eq, Structural)]
pub enum DocumentType {
    /// A PDF.
    Pdf,
}

/// Reads a stored Document type.
pub fn parse_document_type(value: &str) -> (r: Result<DocumentType, CatalogStoreError>)
    ensures
        catalog_view(r) == if value@ == "pdf"@ {
            Ok::<DocumentType, CatalogErrorView>(DocumentType::Pdf)
        } else {
            Err(CatalogErrorView::Corruption("unknown Document type"@))
        },
{
    if same_text(value, "pdf") {
        Ok(DocumentType::Pdf)
    } else {
        Err(corruption("unknown Document type"))
    }
}

/// Returns the text under which a Document type is stored.
pub fn document_type_name(value: DocumentType) -> (r: &'static str)
    ensures
        r@ == "pdf"@,
{
    match value {
        DocumentType::Pdf => "pdf",
    }
}

/// One Page of a Document.
#[derive(Debug, PartialEq, Eq)]
pub struct PageDescriptor {
    /// The Page identifier.
    pub page_id: String,
    /// The Page index.
    pub page_index: u32,
    /// The display width.
    pub width: Dimension,
    /// The display height.
    pub height: Dimension,
    /// The rotation in degrees.
    pub rotation: u16,
    /// The identifier of the Canvas that overlays the Page.
    pub overlay_canvas_id: String,
}

/// The contents of [`PageDescriptor`].
pub struct PageDescriptorView {
    /// The Page identifier.
    pub page_id: Seq<char>,
    /// The Page index.
    pub page_index: int,
    /// The display width.
    pub width: Dimension,
    /// The display height.
    pub height: Dimension,
    /// The rotation in degrees.
    pub rotation: int,
    /// The identifier of the Canvas that overlays the Page.
    pub overlay_canvas_id: Seq<char>,
}

impl View for PageDescriptor {
    type V = PageDescriptorView;

    open spec fn view(&self) -> PageDescriptorView {
        PageDescriptorView {
            page_id: self.page_id@,
            page_index: self.page_index as int,
            width: self.width,
            height: self.height,
            rotation: self.rotation as int,
            overlay_canvas_id: self.overlay_canvas_id@,
        }
    }
}

impl PageDescriptor {
    /// Returns whether both Pages are the same in every part.
    pub fn same(&self, other: &PageDescriptor) -> (r: bool)
        ensures
            r == (self@ == other@),
    {
        same_text(self.page_id.as_str(), other.page_id.as_str()) && self.page_index
            == other.page_index && self.width == other.width && self.height == other.height
            && self.rotation == other.rotation && same_text(
            self.overlay_canvas_id.as_str(),
            other.overlay_canvas_id.as_str(),
        )
    }
}

/// The contents of a list of Pages.
pub open spec fn pages_view(pages: Seq<PageDescriptor>) -> Seq<PageDescriptorView> {
    Seq::new(pages.len(), |i: int| pages[i]@)
}

/// An immutable Document, which has at least one Page.
#[derive(Debug, PartialEq, Eq)]
pub struct DocumentDescriptor {
    document_id: String,
    session_id: String,
    document_type: DocumentType,
    source_asset_id: String,
    title: String,
    pages: Vec<PageDescriptor>,
}

/// The contents of [`DocumentDescriptor`].
pub struct DocumentView {
    /// The Document identifier.
    pub document_id: Seq<char>,
    /// The identifier of the Session it belongs to.
    pub session_id: Seq<char>,
    /// The kind of Document.
    pub document_type: DocumentType,
    /// The identifier of the Asset it was made from.
    pub source_asset_id: Seq<char>,
    /// The title.
    pub title: Seq<char>,
    /// The Pages, in the order of their indexes.
    pub pages: Seq<PageDescriptorView>,
}

impl PageDescriptorView {
    /// Whether index and rotation are numbers that Pages have.
    pub open spec fn is_valid(self) -> bool {
        0 <= self.page_index <= u32::MAX && 0 <= self.rotation <= u16::MAX
    }
}

impl DocumentView {
    /// Whether these are the contents of a Document: it has at least one Page.
    pub open spec fn is_valid(self) -> bool {
        &&& self.pages.len() > 0
        &&& forall|i: int| 0 <= i < self.pages.len() ==> (#[trigger] self.pages[i]).is_valid()
    }
}

impl View for DocumentDescriptor {
    type V = DocumentView;

    closed spec fn view(&self) -> DocumentView {
        DocumentView {
            document_id: self.document_id@,
            session_id: self.session_id@,
            document_type: self.document_type,
            source_asset_id: self.source_asset_id@,
            title: self.title@,
            pages: pages_view(self.pages@),
        }
    }
}

impl DocumentDescriptor {
    /// A Document has at least one Page.
    #[verifier::type_invariant]
    spec fn has_pages(self) -> bool {
        self.pages@.len() > 0
    }

    /// Creates a Document; `accepted` tells whether the Document model takes its parts. A Document
    /// without Pages is never created.
    pub fn new(
        document_id: String,
        session_id: String,
        document_type: DocumentType,
        source_asset_id: String,
        title: String,
        pages: Vec<PageDescriptor>,
        accepted: bool,
    ) -> (r: Option<DocumentDescriptor>)
        ensures
            match r {
                Some(document) => accepted && pages@.len() > 0 && document@ == (DocumentView {
                    document_id: document_id@,
                    session_id: session_id@,
                    document_type,
                    source_asset_id: source_asset_id@,
                    title: title@,
                    pages: pages_view(pages@),
                }),
                None => !accepted || pages@.len() == 0,
            },
    {
        if !accepted || pages.len() == 0 {
            return None;
        }
        Some(
            DocumentDescriptor {
                document_id,
                session_id,
                document_type,
                source_asset_id,
                title,
                pages,
            },
        )
    }

    /// Returns the Document identifier.
    pub fn document_id(&self) -> (r: &str)
        ensures
            r@ == self@.document_id,
    {
        self.document_id.as_str()
    }

    /// Returns the identifier of the Session it belongs to.
    pub fn session_id(&self) -> (r: &str)
        ensures
            r@ == self@.session_id,
    {
        self.session_id.as_str()
    }

    /// Returns the kind of Document.
    pub fn document_type(&self) -> (r: DocumentType)
        ensures
            r == self@.document_type,
    {
        self.document_type
    }

    /// Returns the identifier of the Asset it was made from.
    pub fn source_asset_id(&self) -> (r: &str)
        ensures
            r@ == self@.source_asset_id,
    {
        self.source_asset_id.as_str()
    }

    /// Returns the title.
    pub fn title(&self) -> (r: &str)
        ensures
            r@ == self@.title,
    {
        self.title.as_str()
    }

    /// Returns the Pages, in the order of their indexes.
    pub fn pages(&self) -> (r: &[PageDescriptor])
        ensures
            pages_view(r@) == self@.pages,
            self@.is_valid(),
    {
        proof {
            use_type_invariant(self);
            assert forall|i: int| 0 <= i < self@.pages.len() implies (
            #[trigger] self@.pages[i]).is_valid() by {
                assert(self@.pages[i] == self.pages@[i]@);
            }
        }
        self.pages.as_slice()
    }

    /// Returns whether both Documents are the same in every part.
    pub fn same(&self, other: &DocumentDescriptor) -> (r: bool)
        ensures
            r == (self@ == other@),
    {
        if !same_text(self.document_id.as_str(), other.document_id.as_str()) || !same_text(
            self.session_id.as_str(),
            other.session_id.as_str(),
        ) || self.document_type != other.document_type || !same_text(
            self.source_asset_id.as_str(),
            other.source_asset_id.as_str(),
        ) || !same_text(self.title.as_str(), other.title.as_str()) || self.pages.len()
            != other.pages.len() {
            assert(self@.pages.len() == self.pages@.len());
            assert(other@.pages.len() == other.pages@.len());
            return false;
        }
        let mut i: usize = 0;
        while i < self.pages.len()
            invariant
                i <= self.pages@.len(),
                self.pages@.len() == other.pages@.len(),
                forall|j: int| 0 <= j < i ==> self.pages@[j]@ == other.pages@[j]@,
            decreases self.pages@.len() - i,
        {
            if !self.pages[i].same(&other.pages[i]) {
                assert(self@.pages[i as int] != other@.pages[i as int]);
                return false;
            }
            i = i + 1;
        }
        assert(self@.pages =~= other@.pages);
        true
    }
}

/// An immutable Canvas, whose default Layer is one of its Layers.
#[derive(Debug, PartialEq, Eq)]
pub struct CanvasDescriptor {
    canvas_id: String,
    session_id: String,
    width: Dimension,
    height: Dimension,
    layer_ids: TextSet,
    default_layer_id: String,
}

/// The contents of [`CanvasDescriptor`].
pub struct CanvasView {
    /// The Canvas identifier.
    pub canvas_id: Seq<char>,
    /// The identifier of the Session it belongs to.
    pub session_id: Seq<char>,
    /// The width.
    pub width: Dimension,
    /// The height.
    pub height: Dimension,
    /// The identifiers of its Layers.
    pub layer_ids: Set<Seq<char>>,
    /// The identifier of its default Layer.
    pub default_layer_id: Seq<char>,
}

impl CanvasView {
    /// Whether these are the contents of a Canvas: its default Layer is one of its Layers.
    pub open spec fn is_valid(self) -> bool {
        self.layer_ids.finite() && self.layer_ids.contains(self.default_layer_id)
    }
}

impl View for CanvasDescriptor {
    type V = CanvasView;

    closed spec fn view(&self) -> CanvasView {
        CanvasView {
            canvas_id: self.canvas_id@,
            session_id: self.session_id@,
            width: self.width,
            height: self.height,
            layer_ids: self.layer_ids@,
            default_layer_id: self.default_layer_id@,
        }
    }
}

impl CanvasDescriptor {
    /// The default Layer is one of the Layers.
    #[verifier::type_invariant]
    spec fn has_its_default_layer(self) -> bool {
        self.layer_ids@.contains(self.default_layer_id@)
    }

    /// Creates a Canvas; `accepted` tells whether the Canvas model takes its parts. A Canvas whose
    /// default Layer is none of its Layers is never created.
    pub fn new(
        canvas_id: String,
        session_id: String,
        width: Dimension,
        height: Dimension,
        layer_ids: TextSet,
        default_layer_id: String,
        accepted: bool,
    ) -> (r: Option<CanvasDescriptor>)
        ensures
            match r {
                Some(canvas) => accepted && layer_ids@.contains(default_layer_id@) && canvas@ == (
                CanvasView {
                    canvas_id: canvas_id@,
                    session_id: session_id@,
                    width,
                    height,
                    layer_ids: layer_ids@,
                    default_layer_id: default_layer_id@,
                }),
                None => !accepted || !layer_ids@.contains(default_layer_id@),
            },
    {
        if !accepted || !layer_ids.contains(default_layer_id.as_str()) {
            return None;
        }
        Some(CanvasDescriptor { canvas_id, session_id, width, height, layer_ids, default_layer_id })
    }

    /// Returns the Canvas identifier.
    pub fn canvas_id(&self) -> (r: &str)
        ensures
            r@ == self@.canvas_id,
    {
        self.canvas_id.as_str()
    }

    /// Returns the identifier of the Session it belongs to.
    pub fn session_id(&self) -> (r: &str)
        ensures
            r@ == self@.session_id,
    {
        self.session_id.as_str()
    }

    /// Returns the width.
    pub fn width(&self) -> (r: Dimension)
        ensures
            r == self@.width,
    {
        self.width
    }

    /// Returns the height.
    pub fn height(&self) -> (r: Dimension)
        ensures
            r == self@.height,
    {
        self.height
    }

    /// Returns the identifiers of its Layers.
    pub fn layer_ids(&self) -> (r: &TextSet)
        ensures
            r@ == self@.layer_ids,
    {
        &self.layer_ids
    }

    /// Returns the identifier of its default Layer.
    pub fn default_layer_id(&self) -> (r: &str)
        ensures
            r@ == self@.default_layer_id,
            self@.is_valid(),
    {
        let _ = self.layer_ids.len();
        proof {
            use_type_invariant(self);
        }
        self.default_layer_id.as_str()
    }

    /// Returns whether both Canvases are the same in every part.
    pub fn same(&self, other: &CanvasDescriptor) -> (r: bool)
        ensures
            r == (self@ == other@),
    {
        same_text(self.canvas_id.as_str(), other.canvas_id.as_str()) && same_text(
            self.session_id.as_str(),
            other.session_id.as_str(),
        ) && self.width == other.width && self.height == other.height && self.layer_ids.same(
            &other.layer_ids,
        ) && same_text(self.default_layer_id.as_str(), other.default_layer_id.as_str())
    }
}

/// A row of the pages table, with its texts as far as they can be read.
#[derive(Debug)]
pub struct PageRow {
    /// The Page identifier, if the stored text is one.
    pub page_id: Option<String>,
    /// The Page index.
    pub page_index: i64,
    /// The display width.
    pub width: Dimension,
    /// The display height.
    pub height: Dimension,
    /// The rotation in degrees.
    pub rotation: i64,
    /// Whether the rotation is one that Pages have.
    pub rotation_accepted: bool,
    /// Whether width, height and rotation make a display geometry.
    pub geometry_accepted: bool,
    /// The Canvas identifier, if the stored text is one.
    pub overlay_canvas_id: Option<String>,
}

/// The contents of [`PageRow`].
pub struct PageRowView {
    /// The Page identifier, if the stored text is one.
    pub page_id: Option<Seq<char>>,
    /// The Page index.
    pub page_index: int,
    /// The display width.
    pub width: Dimension,
    /// The display height.
    pub height: Dimension,
    /// The rotation in degrees.
    pub rotation: int,
    /// Whether the rotation is one that Pages have.
    pub rotation_accepted: bool,
    /// Whether width, height and rotation make a display geometry.
    pub geometry_accepted: bool,
    /// The Canvas identifier, if the stored text is one.
    pub overlay_canvas_id: Option<Seq<char>>,
}

impl View for PageRow {
    type V = PageRowView;

    open spec fn view(&self) -> PageRowView {
        PageRowView {
            page_id: optional_text(self.page_id),
            page_index: self.page_index as int,
            width: self.width,
            height: self.height,
            rotation: self.rotation as int,
            rotation_accepted: self.rotation_accepted,
            geometry_accepted: self.geometry_accepted,
            overlay_canvas_id: optional_text(self.overlay_canvas_id),
        }
    }
}

/// What is wrong with a Page row that cannot be decoded.
pub open spec fn page_problem(row: PageRowView) -> Option<Seq<char>> {
    if row.page_id is None {
        Some("malformed Page ID"@)
    } else if !(0 <= row.page_index <= u32::MAX) {
        Some("invalid Page index"@)
    } else if !(0 <= row.rotation <= u16::MAX) || !row.rotation_accepted {
        Some("invalid Page rotation"@)
    } else if !row.geometry_accepted {
        Some("invalid Page geometry"@)
    } else if row.overlay_canvas_id is None {
        Some("malformed overlay Canvas ID"@)
    } else {
        None
    }
}

/// The Page of a row that can be decoded.
pub open spec fn page_of(row: PageRowView) -> PageDescriptorView {
    PageDescriptorView {
        page_id: row.page_id->0,
        page_index: row.page_index,
        width: row.width,
        height: row.height,
        rotation: row.rotation,
        overlay_canvas_id: row.overlay_canvas_id->0,
    }
}

/// What is wrong with the Page rows from the one at `index` on: the first problem counts.
pub open spec fn pages_problem(rows: Seq<PageRowView>, index: int) -> Option<Seq<char>>
    decreases rows.len() - index,
{
    if index < 0 || index >= rows.len() {
        None
    } else if page_problem(rows[index]) is Some {
        page_problem(rows[index])
    } else {
        pages_problem(rows, index + 1)
    }
}

/// The Pages of rows that can all be decoded.
pub open spec fn pages_of(rows: Seq<PageRowView>) -> Seq<PageDescriptorView> {
    Seq::new(rows.len(), |i: int| page_of(rows[i]))
}

/// The contents of a list of Page rows.
pub open spec fn page_rows_view(rows: Seq<PageRow>) -> Seq<PageRowView> {
    Seq::new(rows.len(), |i: int| rows[i]@)
}

fn decode_page(row: PageRow) -> (r: Result<PageDescriptor, CatalogStoreError>)
    ensures
        match r {
            Ok(page) => page_problem(row@) is None && page@ == page_of(row@),
            Err(error) => page_problem(row@) is Some && error@ == CatalogErrorView::Corruption(
                page_problem(row@)->0,
            ),
        },
{
    let page_id = match row.page_id {
        Some(page_id) => page_id,
        None => {
            return Err(corruption("malformed Page ID"));
        },
    };
    if row.page_index < 0 || row.page_index > u32::MAX as i64 {
        return Err(corruption("invalid Page index"));
    }
    if row.rotation < 0 || row.rotation > u16::MAX as i64 || !row.rotation_accepted {
        return Err(corruption("invalid Page rotation"));
    }
    if !row.geometry_accepted {
        return Err(corruption("invalid Page geometry"));
    }
    let overlay_canvas_id = match row.overlay_canvas_id {
        Some(canvas_id) => canvas_id,
        None => {
            return Err(corruption("malformed overlay Canvas ID"));
        },
    };
    Ok(
        PageDescriptor {
            page_id,
            page_index: row.page_index as u32,
            width: row.width,
            height: row.height,
            rotation: row.rotation as u16,
            overlay_canvas_id,
        },
    )
}

/// Decodes the Page rows of a Document, in the order of their indexes.
pub fn load_pages(rows: Vec<PageRow>) -> (r: Result<Vec<PageDescriptor>, CatalogStoreError>)
    ensures
        match r {
            Ok(pages) => pages_problem(page_rows_view(rows@), 0) is None && pages_view(pages@)
                == pages_of(page_rows_view(rows@)),
            Err(error) => pages_problem(page_rows_view(rows@), 0) is Some && error@
                == CatalogErrorView::Corruption(pages_problem(page_rows_view(rows@), 0)->0),
        },
{
    let ghost all = page_rows_view(rows@);
    let mut pages: Vec<PageDescriptor> = Vec::new();
    for row in it: rows
        invariant
            it.seq() == rows@,
            all == page_rows_view(rows@),
            pages@.len() == it.index(),
            forall|i: int| 0 <= i < pages@.len() ==> #[trigger] pages@[i]@ == page_of(all[i]),
            pages_problem(all, 0) == pages_problem(all, it.index()),
    {
        let ghost index = it.index();
        assert(all[index] == row@);
        match decode_page(row) {
            Ok(page) => {
                pages.push(page);
            },
            Err(error) => {
                return Err(error);
            },
        }
    }
    assert(pages_view(pages@) =~= pages_of(all));
    Ok(pages)
}

/// A row of the documents table with the rows of its Pages, with its texts as far as they can be
/// read.
#[derive(Debug)]
pub struct DocumentRow {
    /// The Document identifier, if the stored text is one.
    pub document_id: Option<String>,
    /// The Session identifier, if the stored text is one.
    pub session_id: Option<String>,
    /// The Document type.
    pub document_type: String,
    /// The Asset identifier, if the stored text is one.
    pub source_asset_id: Option<String>,
    /// The title.
    pub title: String,
    /// The number of Pages.
    pub page_count: i64,
    /// The place in the order of publication.
    pub publication_sequence: i64,
    /// The rows of the Pages, in the order of their indexes.
    pub pages: Vec<PageRow>,
    /// Whether the descriptor that the row makes is accepted.
    pub accepted: bool,
}

/// The contents of [`DocumentRow`].
pub struct DocumentRowView {
    /// The Document identifier, if the stored text is one.
    pub document_id: Option<Seq<char>>,
    /// The Session identifier, if the stored text is one.
    pub session_id: Option<Seq<char>>,
    /// The Document type.
    pub document_type: Seq<char>,
    /// The Asset identifier, if the stored text is one.
    pub source_asset_id: Option<Seq<char>>,
    /// The title.
    pub title: Seq<char>,
    /// The number of Pages.
    pub page_count: int,
    /// The place in the order of publication.
    pub publication_sequence: int,
    /// The rows of the Pages.
    pub pages: Seq<PageRowView>,
    /// Whether the descriptor that the row makes is accepted.
    pub accepted: bool,
}

impl View for DocumentRow {
    type V = DocumentRowView;

    open spec fn view(&self) -> DocumentRowView {
        DocumentRowView {
            document_id: optional_text(self.document_id),
            session_id: optional_text(self.session_id),
            document_type: self.document_type@,
            source_asset_id: optional_text(self.source_asset_id),
            title: self.title@,
            page_count: self.page_count as int,
            publication_sequence: self.publication_sequence as int,
            pages: page_rows_view(self.pages@),
            accepted: self.accepted,
        }
    }
}

/// What is wrong with the Pages and the whole of a Document row whose own columns can be read.
pub open spec fn document_body_problem(row: DocumentRowView) -> Option<Seq<char>> {
    if pages_problem(row.pages, 0) is Some {
        pages_problem(row.pages, 0)
    } else if row.page_count <= 0 || row.page_count != row.pages.len() {
        Some("persisted Document page count mismatch"@)
    } else if !row.accepted {
        Some("invalid persisted Document descriptor"@)
    } else {
        None
    }
}

/// What is wrong with a Document row that cannot be decoded.
pub open spec fn document_problem(row: DocumentRowView) -> Option<Seq<char>> {
    if row.document_id is None {
        Some("malformed document ID"@)
    } else if row.session_id is None {
        Some("malformed document Session ID"@)
    } else if row.document_type != "pdf"@ {
        Some("unknown Document type"@)
    } else if row.source_asset_id is None {
        Some("malformed source Asset ID"@)
    } else {
        document_body_problem(row)
    }
}

/// The Document of a row that can be decoded.
pub open spec fn document_of(row: DocumentRowView) -> DocumentView {
    DocumentView {
        document_id: row.document_id->0,
        session_id: row.session_id->0,
        document_type: DocumentType::Pdf,
        source_asset_id: row.source_asset_id->0,
        title: row.title,
        pages: pages_of(row.pages),
    }
}

/// Decodes a Document row.
pub fn load_document(row: DocumentRow) -> (r: Result<DocumentDescriptor, CatalogStoreError>)
    ensures
        match r {
            Ok(document) => document_problem(row@) is None && document@ == document_of(row@),
            Err(error) => document_problem(row@) is Some && error@ == CatalogErrorView::Corruption(
                document_problem(row@)->0,
            ),
        },
{
    let document_id = match row.document_id {
        Some(document_id) => document_id,
        None => {
            return Err(corruption("malformed document ID"));
        },
    };
    let session_id = match row.session_id {
        Some(session_id) => session_id,
        None => {
            return Err(corruption("malformed document Session ID"));
        },
    };
    let document_type = match parse_document_type(row.document_type.as_str()) {
        Ok(document_type) => document_type,
        Err(error) => {
            return Err(error);
        },
    };
    let source_asset_id = match row.source_asset_id {
        Some(asset_id) => asset_id,
        None => {
            return Err(corruption("malformed source Asset ID"));
        },
    };
    let pages = match load_pages(row.pages) {
        Ok(pages) => pages,
        Err(error) => {
            return Err(error);
        },
    };
    assert(pages@.len() == pages_view(pages@).len());
    if row.page_count <= 0 || row.page_count as u64 != pages.len() as u64 {
        return Err(corruption("persisted Document page count mismatch"));
    }
    match DocumentDescriptor::new(
        document_id,
        session_id,
        document_type,
        source_asset_id,
        row.title,
        pages,
        row.accepted,
    ) {
        Some(document) => Ok(document),
        None => Err(corruption("invalid persisted Document descriptor")),
    }
}

/// A row of the canvases table with the identifiers of its Layers, with its texts as far as they
/// can be read.
#[derive(Debug)]
pub struct CanvasRow {
    /// The Canvas identifier, if the stored text is one.
    pub canvas_id: Option<String>,
    /// The Session identifier, if the stored text is one.
    pub session_id: Option<String>,
    /// The width.
    pub width: Dimension,
    /// The height.
    pub height: Dimension,
    /// Whether width and height make a Canvas space.
    pub space_accepted: bool,
    /// The number of Layers.
    pub layer_count: i64,
    /// The identifier of the default Layer, if the stored text is one.
    pub default_layer_id: Option<String>,
    /// The identifiers of the Layers, each if the stored text is one.
    pub layer_ids: Vec<Option<String>>,
    /// Whether the descriptor that the row makes is accepted.
    pub accepted: bool,
}

/// The contents of [`CanvasRow`].
pub struct CanvasRowView {
    /// The Canvas identifier, if the stored text is one.
    pub canvas_id: Option<Seq<char>>,
    /// The Session identifier, if the stored text is one.
    pub session_id: Option<Seq<char>>,
    /// The width.
    pub width: Dimension,
    /// The height.
    pub height: Dimension,
    /// Whether width and height make a Canvas space.
    pub space_accepted: bool,
    /// The number of Layers.
    pub layer_count: int,
    /// The identifier of the default Layer, if the stored text is one.
    pub default_layer_id: Option<Seq<char>>,
    /// The identifiers of the Layers, each if the stored text is one.
    pub layer_ids: Seq<Option<Seq<char>>>,
    /// Whether the descriptor that the row makes is accepted.
    pub accepted: bool,
}

/// The texts of a list of optional strings.
pub open spec fn optional_texts(texts: Seq<Option<String>>) -> Seq<Option<Seq<char>>> {
    Seq::new(texts.len(), |i: int| optional_text(texts[i]))
}

impl View for CanvasRow {
    type V = CanvasRowView;

    open spec fn view(&self) -> CanvasRowView {
        CanvasRowView {
            canvas_id: optional_text(self.canvas_id),
            session_id: optional_text(self.session_id),
            width: self.width,
            height: self.height,
            space_accepted: self.space_accepted,
            layer_count: self.layer_count as int,
            default_layer_id: optional_text(self.default_layer_id),
            layer_ids: optional_texts(self.layer_ids@),
            accepted: self.accepted,
        }
    }
}

/// Whether every Layer identifier can be read.
pub open spec fn are_layer_ids(ids: Seq<Option<Seq<char>>>) -> bool {
    forall|i: int| 0 <= i < ids.len() ==> (#[trigger] ids[i]) is Some
}

/// The Layer identifiers as a set.
pub open spec fn layer_set(ids: Seq<Option<Seq<char>>>) -> Set<Seq<char>>
    decreases ids.len(),
{
    if ids.len() == 0 {
        Set::empty()
    } else {
        layer_set(ids.drop_last()).insert(ids.last()->0)
    }
}

/// What is wrong with a Canvas row that cannot be decoded.
pub open spec fn canvas_problem(row: CanvasRowView) -> Option<Seq<char>> {
    if row.canvas_id is None {
        Some("malformed Canvas ID"@)
    } else if row.session_id is None {
        Some("malformed Canvas Session ID"@)
    } else if !row.space_accepted {
        Some("invalid Canvas space"@)
    } else if row.default_layer_id is None {
        Some("malformed default Layer ID"@)
    } else if !are_layer_ids(row.layer_ids) {
        Some("malformed Layer ID"@)
    } else if row.layer_count <= 0 || row.layer_count != layer_set(row.layer_ids).len() {
        Some("persisted Canvas Layer count mismatch"@)
    } else if !row.accepted || !layer_set(row.layer_ids).contains(row.default_layer_id->0) {
        Some("invalid persisted Canvas descriptor"@)
    } else {
        None
    }
}

/// The Canvas of a row that can be decoded.
pub open spec fn canvas_of(row: CanvasRowView) -> CanvasView {
    CanvasView {
        canvas_id: row.canvas_id->0,
        session_id: row.session_id->0,
        width: row.width,
        height: row.height,
        layer_ids: layer_set(row.layer_ids),
        default_layer_id: row.default_layer_id->0,
    }
}

/// Decodes a Canvas row.
pub fn load_canvas(row: &CanvasRow) -> (r: Result<CanvasDescriptor, CatalogStoreError>)
    ensures
        match r {
            Ok(canvas) => canvas_problem(row@) is None && canvas@ == canvas_of(row@),
            Err(error) => canvas_problem(row@) is Some && error@ == CatalogErrorView::Corruption(
                canvas_problem(row@)->0,
            ),
        },
{
    let canvas_id = match &row.canvas_id {
        Some(canvas_id) => canvas_id.clone(),
        None => {
            return Err(corruption("malformed Canvas ID"));
        },
    };
    let session_id = match &row.session_id {
        Some(session_id) => session_id.clone(),
        None => {
            return Err(corruption("malformed Canvas Session ID"));
        },
    };
    if !row.space_accepted {
        return Err(corruption("invalid Canvas space"));
    }
    let default_layer_id = match &row.default_layer_id {
        Some(layer_id) => layer_id.clone(),
        None => {
            return Err(corruption("malformed default Layer ID"));
        },
    };
    let mut layer_ids = TextSet::new();
    let mut i: usize = 0;
    assert(row@.layer_ids.take(0) =~= Seq::<Option<Seq<char>>>::empty());
    while i < row.layer_ids.len()
        invariant
            i <= row.layer_ids@.len(),
            canvas_problem(row@) is None ==> are_layer_ids(row@.layer_ids),
            row@.canvas_id is Some,
            row@.session_id is Some,
            row@.space_accepted,
            row@.default_layer_id is Some,
            forall|j: int| 0 <= j < i ==> (#[trigger] row@.layer_ids[j]) is Some,
            layer_ids@ == layer_set(row@.layer_ids.take(i as int)),
        decreases row.layer_ids@.len() - i,
    {
        assert(row@.layer_ids[i as int] == optional_text(row.layer_ids@[i as int]));
        let layer_id = match &row.layer_ids[i] {
            Some(layer_id) => layer_id.clone(),
            None => {
                assert(!are_layer_ids(row@.layer_ids));
                return Err(corruption("malformed Layer ID"));
            },
        };
        assert(row@.layer_ids.take(i + 1).drop_last() =~= row@.layer_ids.take(i as int));
        layer_ids = layer_ids.insert(layer_id);
        i = i + 1;
    }
    assert(row@.layer_ids.take(i as int) =~= row@.layer_ids);
    if row.layer_count <= 0 || row.layer_count as u64 != layer_ids.len() as u64 {
        return Err(corruption("persisted Canvas Layer count mismatch"));
    }
    match CanvasDescriptor::new(
        canvas_id,
        session_id,
        row.width,
        row.height,
        layer_ids,
        default_layer_id,
        row.accepted,
    ) {
        Some(canvas) => Ok(canvas),
        None => Err(corruption("invalid persisted Canvas descriptor")),
    }
}

/// A row of the bindings table, with its texts as far as they can be read.
#[derive(Debug)]
pub struct BindingRow {
    /// The Session identifier, if the stored text is one.
    pub session_id: Option<String>,
    /// The Canvas identifier, if the stored text is one.
    pub canvas_id: Option<String>,
}

/// The contents of [`BindingRow`].
pub struct BindingRowView {
    /// The Session identifier, if the stored text is one.
    pub session_id: Option<Seq<char>>,
    /// The Canvas identifier, if the stored text is one.
    pub canvas_id: Option<Seq<char>>,
}

impl View for BindingRow {
    type V = BindingRowView;

    open spec fn view(&self) -> BindingRowView {
        BindingRowView {
            session_id: optional_text(self.session_id),
            canvas_id: optional_text(self.canvas_id),
        }
    }
}

/// What is wrong with a binding row that cannot be decoded.
pub open spec fn binding_problem(row: BindingRowView) -> Option<Seq<char>> {
    if row.session_id is None {
        Some("malformed bootstrap Session ID"@)
    } else if row.canvas_id is None {
        Some("malformed bootstrap Canvas ID"@)
    } else {
        None
    }
}

/// Decodes a binding row.
pub fn load_binding(row: BindingRow) -> (r: Result<BootstrapBinding, CatalogStoreError>)
    ensures
        match r {
            Ok(binding) => binding_problem(row@) is None && binding@ == (BootstrapBindingView {
                session_id: row@.session_id->0,
                canvas_id: row@.canvas_id->0,
            }),
            Err(error) => binding_problem(row@) is Some && error@ == CatalogErrorView::Corruption(
                binding_problem(row@)->0,
            ),
        },
{
    let session_id = match row.session_id {
        Some(session_id) => session_id,
        None => {
            return Err(corruption("malformed bootstrap Session ID"));
        },
    };
    let canvas_id = match row.canvas_id {
        Some(canvas_id) => canvas_id,
        None => {
            return Err(corruption("malformed bootstrap Canvas ID"));
        },
    };
    Ok(BootstrapBinding { session_id, canvas_id })
}

/// A Page row can be decoded exactly where its identifiers can be read, its index and rotation are
/// numbers that Pages have, and its rotation and geometry are accepted; the Page has what the
/// columns say.
pub proof fn law_pages_are_what_their_columns_say(row: PageRowView)
    ensures
        page_problem(row) is None <==> {
            &&& row.page_id is Some
            &&& 0 <= row.page_index <= u32::MAX
            &&& 0 <= row.rotation <= u16::MAX
            &&& row.rotation_accepted
            &&& row.geometry_accepted
            &&& row.overlay_canvas_id is Some
        },
        page_problem(row) is None ==> {
            let page = page_of(row);
            &&& Some(page.page_id) == row.page_id
            &&& page.page_index == row.page_index
            &&& page.width == row.width
            &&& page.height == row.height
            &&& page.rotation == row.rotation
            &&& Some(page.overlay_canvas_id) == row.overlay_canvas_id
        },
{
}

/// A Document row can be decoded exactly where its identifiers can be read, it is a PDF, every Page
/// of it can be decoded, it has as many Pages as it tells, at least one, and it is accepted; the
/// Document has what the columns say, and its Pages in their order.
pub proof fn law_documents_are_what_their_columns_say(row: DocumentRowView)
    ensures
        document_problem(row) is None <==> {
            &&& row.document_id is Some
            &&& row.session_id is Some
            &&& row.document_type == "pdf"@
            &&& row.source_asset_id is Some
            &&& forall|i: int| 0 <= i < row.pages.len()
                ==> page_problem(#[trigger] row.pages[i]) is None
            &&& row.page_count == row.pages.len()
            &&& row.page_count > 0
            &&& row.accepted
        },
        document_problem(row) is None ==> {
            let document = document_of(row);
            &&& Some(document.document_id) == row.document_id
            &&& Some(document.session_id) == row.session_id
            &&& document.document_type == DocumentType::Pdf
            &&& Some(document.source_asset_id) == row.source_asset_id
            &&& document.title == row.title
            &&& document.pages.len() == row.pages.len()
            &&& forall|i: int|
                0 <= i < row.pages.len() ==> #[trigger] document.pages[i] == page_of(row.pages[i])
        },
{
    lemma_pages_problem(row.pages, 0);
}

proof fn lemma_pages_problem(rows: Seq<PageRowView>, index: int)
    requires
        0 <= index,
    ensures
        pages_problem(rows, index) is None <==> forall|i: int|
            index <= i < rows.len() ==> page_problem(#[trigger] rows[i]) is None,
    decreases rows.len() - index,
{
    if index < rows.len() {
        lemma_pages_problem(rows, index + 1);
    }
}

/// The Layers of a Canvas row are exactly those that its rows name.
pub proof fn law_layers_are_those_named(ids: Seq<Option<Seq<char>>>, id: Seq<char>)
    requires
        forall|i: int| 0 <= i < ids.len() ==> (#[trigger] ids[i]) is Some,
    ensures
        layer_set(ids).finite(),
        layer_set(ids).contains(id) <==> exists|i: int|
            0 <= i < ids.len() && #[trigger] ids[i] == Some(id),
    decreases ids.len(),
{
    if ids.len() > 0 {
        let init = ids.drop_last();
        assert forall|i: int| 0 <= i < init.len() implies (#[trigger] init[i]) is Some by {
            assert(init[i] == ids[i]);
        }
        law_layers_are_those_named(init, id);
        assert(ids[ids.len() - 1] == ids.last());
        if layer_set(init).contains(id) {
            let i = choose|i: int| 0 <= i < init.len() && #[trigger] init[i] == Some(id);
            assert(ids[i] == Some(id));
        }
        if exists|i: int| 0 <= i < ids.len() && #[trigger] ids[i] == Some(id) {
            let i = choose|i: int| 0 <= i < ids.len() && #[trigger] ids[i] == Some(id);
            if i < init.len() {
                assert(init[i] == Some(id));
            }
        }
    }
}

/// A Canvas row can be decoded exactly where its identifiers and those of its Layers can be read,
/// its space is accepted, it has as many Layers as it tells, at least one, its default Layer is one
/// of them, and it is accepted; the Canvas has what the columns say.
pub proof fn law_canvases_are_what_their_columns_say(row: CanvasRowView)
    ensures
        canvas_problem(row) is None <==> {
            &&& row.canvas_id is Some
            &&& row.session_id is Some
            &&& row.space_accepted
            &&& row.default_layer_id is Some
            &&& forall|i: int| 0 <= i < row.layer_ids.len()
                ==> (#[trigger] row.layer_ids[i]) is Some
            &&& row.layer_count > 0
            &&& row.layer_count == layer_set(row.layer_ids).len()
            &&& exists|i: int|
                0 <= i < row.layer_ids.len() && #[trigger] row.layer_ids[i]
                    == row.default_layer_id
            &&& row.accepted
        },
        canvas_problem(row) is None ==> {
            let canvas = canvas_of(row);
            &&& Some(canvas.canvas_id) == row.canvas_id
            &&& Some(canvas.session_id) == row.session_id
            &&& canvas.width == row.width
            &&& canvas.height == row.height
            &&& Some(canvas.default_layer_id) == row.default_layer_id
            &&& canvas.layer_ids == layer_set(row.layer_ids)
        },
{
    if forall|i: int| 0 <= i < row.layer_ids.len() ==> (#[trigger] row.layer_ids[i]) is Some {
        if let Some(id) = row.default_layer_id {
            law_layers_are_those_named(row.layer_ids, id);
        }
    }
}

/// A binding can be decoded exactly where both its identifiers can be read.
pub proof fn law_bindings_are_what_their_columns_say(row: BindingRowView)
    ensures
        binding_problem(row) is None <==> row.session_id is Some && row.canvas_id is Some,
{
}

/// Only a catalog of schema version 1 is opened.
pub proof fn law_only_the_supported_schema_is_opened(version: int, text: Seq<char>)
    requires
        0 <= version,
    ensures
        schema_verdict(None) is Err,
        schema_verdict(Some(decimal(version))) is Ok <==> version == 1,
        schema_verdict(Some(seq!['-'] + decimal(version))) is Err,
        schema_verdict(Some(text)) is Ok ==> signed_value(text) == Some(1int),
{
    crate::text::law_signed_numbers_are_decimal(version);
}

/// A row of the catalog with one defect is told by that defect.
pub proof fn law_defects_of_catalog_rows_are_named(
    page: PageRowView,
    document: DocumentRowView,
    canvas: CanvasRowView,
    binding: BindingRowView,
    other: Seq<char>,
)
    requires
        page_problem(page) is None,
        document_problem(document) is None,
        canvas_problem(canvas) is None,
        binding_problem(binding) is None,
    ensures
        page_problem(PageRowView { page_id: None, ..page }) == Some("malformed Page ID"@),
        page_problem(PageRowView { page_index: -1, ..page }) == Some("invalid Page index"@),
        page_problem(PageRowView { rotation: -1, ..page }) == Some("invalid Page rotation"@),
        page_problem(PageRowView { rotation_accepted: false, ..page })
            == Some("invalid Page rotation"@),
        page_problem(PageRowView { geometry_accepted: false, ..page })
            == Some("invalid Page geometry"@),
        page_problem(PageRowView { overlay_canvas_id: None, ..page })
            == Some("malformed overlay Canvas ID"@),
        document_problem(DocumentRowView { document_id: None, ..document }) == Some(
            "malformed document ID"@,
        ),
        document_problem(DocumentRowView { session_id: None, ..document }) == Some(
            "malformed document Session ID"@,
        ),
        other != "pdf"@ ==> document_problem(DocumentRowView { document_type: other, ..document })
            == Some("unknown Document type"@),
        document_problem(DocumentRowView { source_asset_id: None, ..document }) == Some(
            "malformed source Asset ID"@,
        ),
        document_problem(DocumentRowView { page_count: 0, ..document }) == Some(
            "persisted Document page count mismatch"@,
        ),
        document_problem(DocumentRowView { accepted: false, ..document }) == Some(
            "invalid persisted Document descriptor"@,
        ),
        canvas_problem(CanvasRowView { canvas_id: None, ..canvas }) == Some(
            "malformed Canvas ID"@,
        ),
        canvas_problem(CanvasRowView { session_id: None, ..canvas }) == Some(
            "malformed Canvas Session ID"@,
        ),
        canvas_problem(CanvasRowView { space_accepted: false, ..canvas }) == Some(
            "invalid Canvas space"@,
        ),
        canvas_problem(CanvasRowView { default_layer_id: None, ..canvas }) == Some(
            "malformed default Layer ID"@,
        ),
        canvas_problem(CanvasRowView { layer_count: 0, ..canvas }) == Some(
            "persisted Canvas Layer count mismatch"@,
        ),
        canvas_problem(CanvasRowView { accepted: false, ..canvas }) == Some(
            "invalid persisted Canvas descriptor"@,
        ),
        binding_problem(BindingRowView { session_id: None, ..binding }) == Some(
            "malformed bootstrap Session ID"@,
        ),
        binding_problem(BindingRowView { canvas_id: None, ..binding }) == Some(
            "malformed bootstrap Canvas ID"@,
        ),
{
}

/// A stored schema version that is not supported is told as missing, malformed, newer or older.
pub proof fn law_refused_schemas_are_named(
    version: int,
)
    requires
        0 <= version <= i64::MAX,
    ensures
        schema_verdict(None) == Err::<(), CatalogErrorView>(
            CatalogErrorView::Corruption("missing catalog schema version"@),
        ),
        schema_verdict(Some(Seq::empty())) == Err::<(), CatalogErrorView>(
            CatalogErrorView::Corruption("malformed catalog schema version"@),
        ),
        version > 1 ==> schema_verdict(Some(decimal(version))) == Err::<(), CatalogErrorView>(
            CatalogErrorView::Schema("schema version is newer than this adapter"@),
        ),
        version < 1 ==> schema_verdict(Some(decimal(version))) == Err::<(), CatalogErrorView>(
            CatalogErrorView::Schema("schema migration is required"@),
        ),
{
    crate::text::law_signed_numbers_are_decimal(version);
}

/// Lists of Pages, of their rows and of optional texts show what they hold, in their order.
pub proof fn law_views_of_rows(
    pages: Seq<PageDescriptor>,
    rows: Seq<PageRow>,
    list: Seq<Option<String>>,
)
    ensures
        pages_view(pages).len() == pages.len(),
        forall|i: int| 0 <= i < pages.len() ==> #[trigger] pages_view(pages)[i] == pages[i]@,
        page_rows_view(rows).len() == rows.len(),
        forall|i: int| 0 <= i < rows.len() ==> #[trigger] page_rows_view(rows)[i] == rows[i]@,
        optional_texts(list).len() == list.len(),
        forall|i: int|
            0 <= i < list.len() ==> #[trigger] optional_texts(list)[i] == optional_text(list[i]),
{
}

/// An error is told with what it is about, and with nothing else but its own detail.
pub proof fn law_errors_are_told_in_words(detail: Seq<char>)
    ensures
        CatalogErrorView::InvalidQueueCapacity.shown()
            == "catalog command queue capacity must be greater than zero"@,
        CatalogErrorView::Unavailable(detail).shown() == "catalog backend unavailable: "@ + detail,
        CatalogErrorView::Backend(detail).shown() == "catalog backend failure: "@ + detail,
        CatalogErrorView::Corruption(detail).shown()
            == "catalog persistence corruption: "@ + detail,
        CatalogErrorView::Schema(detail).shown() == "catalog schema is incompatible: "@ + detail,
        CatalogErrorView::Conflict.shown() == "catalog immutable identity conflict"@,
        CatalogErrorView::InvalidGraph(detail).shown() == "catalog graph is invalid: "@ + detail,
{
}

} // verus!
