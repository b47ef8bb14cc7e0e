//! Composition of a process: which dependencies are made in which order, and what is taken back
//! where one of them fails.
//!
//! A composition is driven by asking [`Bootstrap::initialize_with`] again and again, each time with
//! what came of the step it named last, until it names the outcome.

use vstd::prelude::*;

use crate::application::{copy_error, optional_outcome};
use crate::canvas_history::{CanvasLookup, CanvasLookupView};
use crate::catalog::{BootstrapBinding, BootstrapBindingView, CatalogPublishOutcome};
use crate::config::ServerConfig;
use crate::error::{ServerError, ServerErrorView};
use crate::facts::lemma_known;
use crate::text::{optional_text, same_text};

verus! {

/// The binding of the development Canvas in the persistent catalog.
#[derive(Debug)]
pub enum BindingFact {
    /// The catalog could not be asked.
    Failed,
    /// There is no binding.
    Unbound,
    /// There is this binding.
    Bound(BootstrapBinding),
}

/// The contents of [`BindingFact`].
pub enum BindingFactView {
    /// The catalog could not be asked.
    Failed,
    /// There is no binding.
    Unbound,
    /// There is this binding.
    Bound(BootstrapBindingView),
}

impl View for BindingFact {
    type V = BindingFactView;

    open spec fn view(&self) -> BindingFactView {
        match *self {
            BindingFact::Failed => BindingFactView::Failed,
            BindingFact::Unbound => BindingFactView::Unbound,
            BindingFact::Bound(binding) => BindingFactView::Bound(binding@),
        }
    }
}

/// What a publication did.
#[derive(Clone, Copy, Debug, PartialEq, Eq, Structural)]
pub enum Publication {
    /// It failed.
    Failed,
    /// It ended so.
    Outcome(CatalogPublishOutcome),
}

/// What was found of the Asset of a Document.
#[derive(Clone, Copy, Debug, PartialEq, Eq, Structural)]
pub enum AssetCheck {
    /// The Asset catalog failed.
    Failed,
    /// The Asset is not published.
    Missing,
    /// The Asset is published.
    Found,
}

/// What is known so far of the composition of a process: what came of each step that was taken.
#[derive(Debug)]
pub struct BootstrapFacts {
    /// Whether the node was registered as starting.
    pub registered: Option<bool>,
    /// Whether the persistent Asset store was opened.
    pub asset_store: Option<bool>,
    /// Whether the persistent catalog was opened.
    pub catalog_store: Option<bool>,
    /// Whether the echo handler was registered.
    pub echo_handler: Option<bool>,
    /// The binding of the development Canvas.
    pub binding: Option<BindingFact>,
    /// The Canvas that the binding names.
    pub bound_canvas: Option<CanvasLookup>,
    /// The Session of the Canvas that was made from the configuration; none inside where it is
    /// invalid.
    pub made_canvas: Option<Option<String>>,
    /// What publishing that Canvas with its binding did.
    pub published_canvas: Option<Publication>,
    /// Whether the catalog holds Documents; none inside where it could not be asked.
    pub documents: Option<Option<bool>>,
    /// Whether the development PDF was made into a Document.
    pub composed: Option<Result<(), ServerError>>,
    /// What publishing that Document did.
    pub published_document: Option<Publication>,
    /// Whether that Document was inserted into the memory catalog.
    pub inserted_document: Option<bool>,
    /// Whether the memory Canvas catalog was made.
    pub canvas_catalog: Option<bool>,
    /// Whether the Canvas handlers were registered.
    pub canvas_handlers: Option<bool>,
    /// Whether the Asset Delivery service was made.
    pub delivery: Option<Result<(), ServerError>>,
    /// Whether the Document Queries were registered.
    pub document_queries: Option<bool>,
    /// Whether the Canvas history Query was registered.
    pub history_query: Option<bool>,
    /// Whether the Asset access Query was registered.
    pub access_query: Option<bool>,
    /// The number of Documents to validate; none inside where they could not be listed.
    pub listed: Option<Option<usize>>,
    /// What was found of the Asset of each Document so far.
    pub assets: Vec<AssetCheck>,
    /// Whether the view of each Document so far could be read.
    pub views: Vec<bool>,
    /// Whether it was tried to register the node as offline.
    pub offline_registered: bool,
    /// Whether it was tried to unregister the node.
    pub unregistered: bool,
}

/// The contents of [`BootstrapFacts`].
pub struct BootstrapFactsView {
    /// Whether the node was registered as starting.
    pub registered: Option<bool>,
    /// Whether the persistent Asset store was opened.
    pub asset_store: Option<bool>,
    /// Whether the persistent catalog was opened.
    pub catalog_store: Option<bool>,
    /// Whether the echo handler was registered.
    pub echo_handler: Option<bool>,
    /// The binding of the development Canvas.
    pub binding: Option<BindingFactView>,
    /// The Canvas that the binding names.
    pub bound_canvas: Option<CanvasLookupView>,
    /// The Session of the Canvas that was made from the configuration; none inside where it is
    /// invalid.
    pub made_canvas: Option<Option<Seq<char>>>,
    /// What publishing that Canvas with its binding did.
    pub published_canvas: Option<Publication>,
    /// Whether the catalog holds Documents; none inside where it could not be asked.
    pub documents: Option<Option<bool>>,
    /// Whether the development PDF was made into a Document.
    pub composed: Option<Result<(), ServerErrorView>>,
    /// What publishing that Document did.
    pub published_document: Option<Publication>,
    /// Whether that Document was inserted into the memory catalog.
    pub inserted_document: Option<bool>,
    /// Whether the memory Canvas catalog was made.
    pub canvas_catalog: Option<bool>,
    /// Whether the Canvas handlers were registered.
    pub canvas_handlers: Option<bool>,
    /// Whether the Asset Delivery service was made.
    pub delivery: Option<Result<(), ServerErrorView>>,
    /// Whether the Document Queries were registered.
    pub document_queries: Option<bool>,
    /// Whether the Canvas history Query was registered.
    pub history_query: Option<bool>,
    /// Whether the Asset access Query was registered.
    pub access_query: Option<bool>,
    /// The number of Documents to validate; none inside where they could not be listed.
    pub listed: Option<Option<usize>>,
    /// What was found of the Asset of each Document so far.
    pub assets: Seq<AssetCheck>,
    /// Whether the view of each Document so far could be read.
    pub views: Seq<bool>,
    /// Whether it was tried to register the node as offline.
    pub offline_registered: bool,
    /// Whether it was tried to unregister the node.
    pub unregistered: bool,
}

impl View for BootstrapFacts {
    type V = BootstrapFactsView;

    open spec fn view(&self) -> BootstrapFactsView {
        BootstrapFactsView {
            registered: self.registered,
            asset_store: self.asset_store,
            catalog_store: self.catalog_store,
            echo_handler: self.echo_handler,
            binding: match self.binding {
                Some(fact) => Some(fact@),
                None => None,
            },
            bound_canvas: match self.bound_canvas {
                Some(lookup) => Some(lookup@),
                None => None,
            },
            made_canvas: match self.made_canvas {
                Some(session) => Some(optional_text(session)),
                None => None,
            },
            published_canvas: self.published_canvas,
            documents: self.documents,
            composed: optional_outcome(self.composed),
            published_document: self.published_document,
            inserted_document: self.inserted_document,
            canvas_catalog: self.canvas_catalog,
            canvas_handlers: self.canvas_handlers,
            delivery: optional_outcome(self.delivery),
            document_queries: self.document_queries,
            history_query: self.history_query,
            access_query: self.access_query,
            listed: self.listed,
            assets: self.assets@,
            views: self.views@,
            offline_registered: self.offline_registered,
            unregistered: self.unregistered,
        }
    }
}

impl BootstrapFacts {
    /// Creates the facts of a composition in which nothing was done yet.
    pub fn new() -> (r: BootstrapFacts)
        ensures
            r@ == (BootstrapFactsView {
                registered: None,
                asset_store: None,
                catalog_store: None,
                echo_handler: None,
                binding: None,
                bound_canvas: None,
                made_canvas: None,
                published_canvas: None,
                documents: None,
                composed: None,
                published_document: None,
                inserted_document: None,
                canvas_catalog: None,
                canvas_handlers: None,
                delivery: None,
                document_queries: None,
                history_query: None,
                access_query: None,
                listed: None,
                assets: Seq::empty(),
                views: Seq::empty(),
                offline_registered: false,
                unregistered: false,
            }),
    {
        BootstrapFacts {
            registered: None,
            asset_store: None,
            catalog_store: None,
            echo_handler: None,
            binding: None,
            bound_canvas: None,
            made_canvas: None,
            published_canvas: None,
            documents: None,
            composed: None,
            published_document: None,
            inserted_document: None,
            canvas_catalog: None,
            canvas_handlers: None,
            delivery: None,
            document_queries: None,
            history_query: None,
            access_query: None,
            listed: None,
            assets: Vec::new(),
            views: Vec::new(),
            offline_registered: false,
            unregistered: false,
        }
    }
}

/// A step of a composition.
#[derive(Debug, PartialEq, Eq)]
pub enum BootstrapStep {
    /// Register the node as starting.
    RegisterStarting,
    /// Open the persistent Asset store.
    OpenAssetStore,
    /// Open the persistent catalog.
    OpenCatalogStore,
    /// Register the echo handler.
    RegisterEchoHandler,
    /// Ask the catalog for the binding of the development Canvas.
    GetBinding,
    /// Ask the catalog for the Canvas that the binding names.
    GetBoundCanvas(String),
    /// Make the development Canvas from the configuration.
    MakeCanvas,
    /// Publish the development Canvas with its binding.
    PublishCanvas,
    /// Ask whether the catalog holds Documents: of the Session, or any where none is named.
    ListDocuments(Option<String>),
    /// Make the development PDF into a Document of the Session.
    ComposePdf(String),
    /// Publish the Document in the persistent catalog.
    PublishDocument,
    /// Insert the Document into the memory catalog.
    InsertDocument,
    /// Make the memory Canvas catalog.
    MakeCanvasCatalog,
    /// Register the Canvas handlers.
    RegisterCanvasHandlers,
    /// Make the Asset Delivery service.
    MakeDelivery,
    /// Register the Document Queries.
    RegisterDocumentQueries,
    /// Register the Canvas history Query.
    RegisterHistoryQuery,
    /// Register the Asset access Query.
    RegisterAccessQuery,
    /// List the Documents to validate: of the Session, or all where none is named.
    ListForValidation(Option<String>),
    /// Look up the Asset of the Document at the index.
    FindAsset(usize),
    /// Read the view of the Document at the index.
    ReadView(usize),
    /// Register the node as offline.
    RegisterOffline,
    /// Unregister the node.
    Unregister,
}

/// The contents of [`BootstrapStep`].
pub enum BootstrapStepView {
    /// Register the node as starting.
    RegisterStarting,
    /// Open the persistent Asset store.
    OpenAssetStore,
    /// Open the persistent catalog.
    OpenCatalogStore,
    /// Register the echo handler.
    RegisterEchoHandler,
    /// Ask the catalog for the binding of the development Canvas.
    GetBinding,
    /// Ask the catalog for the Canvas that the binding names.
    GetBoundCanvas(Seq<char>),
    /// Make the development Canvas from the configuration.
    MakeCanvas,
    /// Publish the development Canvas with its binding.
    PublishCanvas,
    /// Ask whether the catalog holds Documents: of the Session, or any where none is named.
    ListDocuments(Option<Seq<char>>),
    /// Make the development PDF into a Document of the Session.
    ComposePdf(Seq<char>),
    /// Publish the Document in the persistent catalog.
    PublishDocument,
    /// Insert the Document into the memory catalog.
    InsertDocument,
    /// Make the memory Canvas catalog.
    MakeCanvasCatalog,
    /// Register the Canvas handlers.
    RegisterCanvasHandlers,
    /// Make the Asset Delivery service.
    MakeDelivery,
    /// Register the Document Queries.
    RegisterDocumentQueries,
    /// Register the Canvas history Query.
    RegisterHistoryQuery,
    /// Register the Asset access Query.
    RegisterAccessQuery,
    /// List the Documents to validate: of the Session, or all where none is named.
    ListForValidation(Option<Seq<char>>),
    /// Look up the Asset of the Document at the index.
    FindAsset(int),
    /// Read the view of the Document at the index.
    ReadView(int),
    /// Register the node as offline.
    RegisterOffline,
    /// Unregister the node.
    Unregister,
}

impl View for BootstrapStep {
    type V = BootstrapStepView;

    open spec fn view(&self) -> BootstrapStepView {
        match *self {
            BootstrapStep::RegisterStarting => BootstrapStepView::RegisterStarting,
            BootstrapStep::OpenAssetStore => BootstrapStepView::OpenAssetStore,
            BootstrapStep::OpenCatalogStore => BootstrapStepView::OpenCatalogStore,
            BootstrapStep::RegisterEchoHandler => BootstrapStepView::RegisterEchoHandler,
            BootstrapStep::GetBinding => BootstrapStepView::GetBinding,
            BootstrapStep::MakeCanvas => BootstrapStepView::MakeCanvas,
            BootstrapStep::PublishCanvas => BootstrapStepView::PublishCanvas,
            BootstrapStep::PublishDocument => BootstrapStepView::PublishDocument,
            BootstrapStep::InsertDocument => BootstrapStepView::InsertDocument,
            BootstrapStep::MakeCanvasCatalog => BootstrapStepView::MakeCanvasCatalog,
            BootstrapStep::RegisterCanvasHandlers => BootstrapStepView::RegisterCanvasHandlers,
            BootstrapStep::MakeDelivery => BootstrapStepView::MakeDelivery,
            BootstrapStep::RegisterDocumentQueries => BootstrapStepView::RegisterDocumentQueries,
            BootstrapStep::RegisterHistoryQuery => BootstrapStepView::RegisterHistoryQuery,
            BootstrapStep::RegisterAccessQuery => BootstrapStepView::RegisterAccessQuery,
            BootstrapStep::RegisterOffline => BootstrapStepView::RegisterOffline,
            BootstrapStep::Unregister => BootstrapStepView::Unregister,
            BootstrapStep::GetBoundCanvas(id) => BootstrapStepView::GetBoundCanvas(id@),
            BootstrapStep::ListDocuments(session) => BootstrapStepView::ListDocuments(
                optional_text(session),
            ),
            BootstrapStep::ComposePdf(session) => BootstrapStepView::ComposePdf(session@),
            BootstrapStep::ListForValidation(session) => BootstrapStepView::ListForValidation(
                optional_text(session),
            ),
            BootstrapStep::FindAsset(index) => BootstrapStepView::FindAsset(index as int),
            BootstrapStep::ReadView(index) => BootstrapStepView::ReadView(index as int),
        }
    }
}

/// Where a stage of a composition stands, if it has not passed.
#[derive(Debug)]
pub enum Stage {
    /// The stage needs a step.
    Needs(BootstrapStep),
    /// The stage failed.
    Failed(ServerError),
}

/// The contents of [`Stage`].
pub enum StageView {
    /// The stage needs a step.
    Needs(BootstrapStepView),
    /// The stage failed.
    Failed(ServerErrorView),
}

/// The contents of an optional stage.
pub open spec fn stage_view(stage: Option<Stage>) -> Option<StageView> {
    match stage {
        None => None,
        Some(Stage::Needs(step)) => Some(StageView::Needs(step@)),
        Some(Stage::Failed(error)) => Some(StageView::Failed(error@)),
    }
}

/// A stage that failed with a bootstrap message.
pub open spec fn failed(message: Seq<char>) -> Option<StageView> {
    Some(StageView::Failed(ServerErrorView::Bootstrap(message)))
}

/// A stage that is one step, which has to succeed.
pub open spec fn required(fact: Option<bool>, step: BootstrapStepView, message: Seq<char>) -> Option<
    StageView,
> {
    match fact {
        None => Some(StageView::Needs(step)),
        Some(true) => None,
        Some(false) => failed(message),
    }
}

/// The first stage that has not passed.
pub open spec fn first_open(first: Option<StageView>, second: Option<StageView>) -> Option<
    StageView,
> {
    if first is Some {
        first
    } else {
        second
    }
}

/// A stage that is one publication, which may not conflict.
pub open spec fn published(
    fact: Option<Publication>,
    step: BootstrapStepView,
    failure: Seq<char>,
    conflict: Seq<char>,
) -> Option<StageView> {
    match fact {
        None => Some(StageView::Needs(step)),
        Some(Publication::Failed) => failed(failure),
        Some(Publication::Outcome(CatalogPublishOutcome::Conflict)) => failed(conflict),
        Some(Publication::Outcome(_)) => None,
    }
}

/// Whether the process keeps its catalog on disk.
pub open spec fn is_persistent(config: ServerConfig) -> bool {
    config.catalog_store_path is Some
}

/// Opening the configured persistent stores.
pub open spec fn stores_stage(config: ServerConfig, facts: BootstrapFactsView) -> Option<StageView> {
    first_open(
        if config.asset_store_root is Some {
            required(
                facts.asset_store,
                BootstrapStepView::OpenAssetStore,
                "persistent Asset store initialization failed"@,
            )
        } else {
            None
        },
        if is_persistent(config) {
            required(
                facts.catalog_store,
                BootstrapStepView::OpenCatalogStore,
                "persistent Catalog initialization failed"@,
            )
        } else {
            None
        },
    )
}

/// Making the development Canvas from the configuration.
pub open spec fn made_canvas_stage(facts: BootstrapFactsView) -> Option<StageView> {
    match facts.made_canvas {
        None => Some(StageView::Needs(BootstrapStepView::MakeCanvas)),
        Some(None) => failed("development Canvas configuration is invalid"@),
        Some(Some(_)) => None,
    }
}

/// Taking the development Canvas that a binding names: it has to be stored, with the Session of the
/// binding.
pub open spec fn bound_canvas_stage(binding: BootstrapBindingView, facts: BootstrapFactsView) ->
    Option<StageView> {
    match facts.bound_canvas {
        None => Some(StageView::Needs(BootstrapStepView::GetBoundCanvas(binding.canvas_id))),
        Some(CanvasLookupView::Failed) => failed("Development Canvas lookup failed"@),
        Some(CanvasLookupView::Missing) => failed(
            "Development bootstrap binding references a missing Canvas"@,
        ),
        Some(CanvasLookupView::Found(session_id)) => if session_id != binding.session_id {
            failed("Development bootstrap Session mismatch"@)
        } else {
            None
        },
    }
}

/// Having the development Canvas: a persistent catalog keeps the one it has, and is given one if it
/// has none.
pub open spec fn canvas_stage(config: ServerConfig, facts: BootstrapFactsView) -> Option<StageView> {
    if !is_persistent(config) {
        made_canvas_stage(facts)
    } else {
        match facts.binding {
            None => Some(StageView::Needs(BootstrapStepView::GetBinding)),
            Some(BindingFactView::Failed) => failed(
                "Development bootstrap binding lookup failed"@,
            ),
            Some(BindingFactView::Bound(binding)) => bound_canvas_stage(binding, facts),
            Some(BindingFactView::Unbound) => first_open(
                made_canvas_stage(facts),
                published(
                    facts.published_canvas,
                    BootstrapStepView::PublishCanvas,
                    "Development Canvas publication failed"@,
                    "Development Canvas identity conflict"@,
                ),
            ),
        }
    }
}

/// The Session of the development Canvas, as far as it is known: that of the binding, where the
/// catalog is persistent and has one, and that of the Canvas that was made otherwise.
pub open spec fn known_session(config: ServerConfig, facts: BootstrapFactsView) -> Option<Seq<char>> {
    match facts.binding {
        Some(BindingFactView::Bound(binding)) => if is_persistent(config) {
            Some(binding.session_id)
        } else {
            made_session(facts)
        },
        _ => made_session(facts),
    }
}

/// The Session of the Canvas that was made.
pub open spec fn made_session(facts: BootstrapFactsView) -> Option<Seq<char>> {
    match facts.made_canvas {
        Some(Some(session_id)) => Some(session_id),
        _ => None,
    }
}

/// The Session of the development Canvas of a process that has one.
pub open spec fn development_session(config: ServerConfig, facts: BootstrapFactsView) -> Seq<char> {
    known_session(config, facts)->0
}

/// The Session whose Documents are asked for: a persistent catalog is asked for all.
pub open spec fn listed_session(config: ServerConfig, facts: BootstrapFactsView) -> Option<
    Seq<char>,
> {
    if is_persistent(config) {
        None
    } else {
        Some(development_session(config, facts))
    }
}

/// Making the development PDF into a Document and storing it.
pub open spec fn pdf_stage(config: ServerConfig, facts: BootstrapFactsView) -> Option<StageView> {
    match facts.composed {
        None => Some(
            StageView::Needs(
                BootstrapStepView::ComposePdf(development_session(config, facts)),
            ),
        ),
        Some(Err(error)) => Some(StageView::Failed(error)),
        Some(Ok(_)) => if is_persistent(config) {
            published(
                facts.published_document,
                BootstrapStepView::PublishDocument,
                "Development Document publication failed"@,
                "development Document identity conflict"@,
            )
        } else {
            required(
                facts.inserted_document,
                BootstrapStepView::InsertDocument,
                "development Document identity collision"@,
            )
        },
    }
}

/// Having a development Document, where one is configured and the catalog holds none.
pub open spec fn documents_stage(config: ServerConfig, facts: BootstrapFactsView) -> Option<
    StageView,
> {
    match facts.documents {
        None => Some(
            StageView::Needs(BootstrapStepView::ListDocuments(listed_session(config, facts))),
        ),
        Some(None) => failed("Development Document catalog lookup failed"@),
        Some(Some(true)) => None,
        Some(Some(false)) => if config.development_pdf_path is Some {
            pdf_stage(config, facts)
        } else {
            None
        },
    }
}

/// What only development mode has.
pub open spec fn development_stage(config: ServerConfig, facts: BootstrapFactsView) -> Option<
    StageView,
> {
    if !config.development_mode {
        None
    } else {
        let stage = required(
            facts.echo_handler,
            BootstrapStepView::RegisterEchoHandler,
            "development handler registration failed"@,
        );
        let stage = first_open(stage, canvas_stage(config, facts));
        first_open(stage, documents_stage(config, facts))
    }
}

/// Having the Canvas catalog and the Canvas handlers.
pub open spec fn canvas_services_stage(config: ServerConfig, facts: BootstrapFactsView) -> Option<
    StageView,
> {
    first_open(
        if !is_persistent(config) {
            required(
                facts.canvas_catalog,
                BootstrapStepView::MakeCanvasCatalog,
                "duplicate Canvas identity"@,
            )
        } else {
            None
        },
        if config.development_mode {
            required(
                facts.canvas_handlers,
                BootstrapStepView::RegisterCanvasHandlers,
                "Canvas handler registration failed"@,
            )
        } else {
            None
        },
    )
}

/// Making the Asset Delivery service, where it is enabled.
pub open spec fn delivery_stage(config: ServerConfig, facts: BootstrapFactsView) -> Option<
    StageView,
> {
    if !config.asset_delivery.enabled {
        None
    } else {
        match facts.delivery {
            None => Some(StageView::Needs(BootstrapStepView::MakeDelivery)),
            Some(Err(error)) => Some(StageView::Failed(error)),
            Some(Ok(_)) => None,
        }
    }
}

/// Registering the Queries.
pub open spec fn queries_stage(config: ServerConfig, facts: BootstrapFactsView) -> Option<
    StageView,
> {
    let stage = required(
        facts.document_queries,
        BootstrapStepView::RegisterDocumentQueries,
        "Document Query handler registration failed"@,
    );
    let stage = first_open(
        stage,
        required(
            facts.history_query,
            BootstrapStepView::RegisterHistoryQuery,
            "Canvas history Query registration failed"@,
        ),
    );
    first_open(
        stage,
        if config.asset_delivery.enabled {
            required(
                facts.access_query,
                BootstrapStepView::RegisterAccessQuery,
                "Asset access Query handler registration failed"@,
            )
        } else {
            None
        },
    )
}

/// Validating the Documents from `index` on, one after the other: each has to have a published
/// Asset, where the catalog is persistent, and a consistent view.
pub open spec fn document_checks_stage(
    config: ServerConfig,
    facts: BootstrapFactsView,
    count: int,
    index: int,
) -> Option<StageView>
    decreases count - index,
{
    if index >= count {
        None
    } else if is_persistent(config) && facts.assets.len() <= index {
        Some(StageView::Needs(BootstrapStepView::FindAsset(index)))
    } else if is_persistent(config) && facts.assets[index] == AssetCheck::Failed {
        failed("Document source Asset lookup failed"@)
    } else if is_persistent(config) && facts.assets[index] == AssetCheck::Missing {
        failed("Document references a missing published Asset"@)
    } else if facts.views.len() <= index {
        Some(StageView::Needs(BootstrapStepView::ReadView(index)))
    } else if !facts.views[index] {
        failed("Document read model is inconsistent"@)
    } else {
        document_checks_stage(config, facts, count, index + 1)
    }
}

/// Validating the Documents: all of a persistent catalog, and those of the development Session
/// otherwise.
pub open spec fn validation_stage(config: ServerConfig, facts: BootstrapFactsView) -> Option<
    StageView,
> {
    if !is_persistent(config) && !config.development_mode {
        None
    } else {
        match facts.listed {
            None => Some(
                StageView::Needs(
                    BootstrapStepView::ListForValidation(listed_session(config, facts)),
                ),
            ),
            Some(None) => failed("Document catalog validation failed"@),
            Some(Some(count)) => document_checks_stage(config, facts, count as int, 0),
        }
    }
}

/// The first stage of a composition that has not passed.
pub open spec fn open_stage(config: ServerConfig, facts: BootstrapFactsView) -> Option<StageView> {
    let stage = stores_stage(config, facts);
    let stage = first_open(stage, development_stage(config, facts));
    let stage = first_open(stage, canvas_services_stage(config, facts));
    let stage = first_open(stage, delivery_stage(config, facts));
    let stage = first_open(stage, queries_stage(config, facts));
    first_open(stage, validation_stage(config, facts))
}

/// What a composition does next.
#[derive(Debug)]
pub enum BootstrapDecision {
    /// Take the step.
    Take(BootstrapStep),
    /// The composition ends.
    Done(Result<(), ServerError>),
}

/// The contents of [`BootstrapDecision`].
pub enum BootstrapDecisionView {
    /// Take the step.
    Take(BootstrapStepView),
    /// The composition ends.
    Done(Result<(), ServerErrorView>),
}

impl View for BootstrapDecision {
    type V = BootstrapDecisionView;

    open spec fn view(&self) -> BootstrapDecisionView {
        match *self {
            BootstrapDecision::Take(step) => BootstrapDecisionView::Take(step@),
            BootstrapDecision::Done(Ok(_)) => BootstrapDecisionView::Done(Ok(())),
            BootstrapDecision::Done(Err(error)) => BootstrapDecisionView::Done(Err(error@)),
        }
    }
}

/// The end of a composition that failed after the node was registered: the node is taken away
/// first.
pub open spec fn taken_back(facts: BootstrapFactsView, error: ServerErrorView) ->
    BootstrapDecisionView {
    if !facts.offline_registered {
        BootstrapDecisionView::Take(BootstrapStepView::RegisterOffline)
    } else if !facts.unregistered {
        BootstrapDecisionView::Take(BootstrapStepView::Unregister)
    } else {
        BootstrapDecisionView::Done(Err(error))
    }
}

/// What a composition does next.
pub open spec fn bootstrap_decision(config: ServerConfig, facts: BootstrapFactsView) ->
    BootstrapDecisionView {
    match config.verdict() {
        Err(error) => BootstrapDecisionView::Done(Err(error)),
        Ok(_) => match facts.registered {
            None => BootstrapDecisionView::Take(BootstrapStepView::RegisterStarting),
            Some(false) => BootstrapDecisionView::Done(
                Err(ServerErrorView::NodeLifecycle("node state registration failed"@)),
            ),
            Some(true) => match open_stage(config, facts) {
                None => BootstrapDecisionView::Done(Ok(())),
                Some(StageView::Needs(step)) => BootstrapDecisionView::Take(step),
                Some(StageView::Failed(error)) => taken_back(facts, error),
            },
        },
    }
}

fn fail(message: &str) -> (r: Option<Stage>)
    ensures
        stage_view(r) == failed(message@),
{
    Some(Stage::Failed(ServerError::bootstrap(message)))
}

fn require(fact: Option<bool>, step: BootstrapStep, message: &str) -> (r: Option<Stage>)
    ensures
        stage_view(r) == required(fact, step@, message@),
{
    match fact {
        None => Some(Stage::Needs(step)),
        Some(done) => if done {
            None
        } else {
            fail(message)
        },
    }
}

fn publish(fact: Option<Publication>, step: BootstrapStep, failure: &str, conflict: &str) -> (r:
    Option<Stage>)
    ensures
        stage_view(r) == published(fact, step@, failure@, conflict@),
{
    match fact {
        None => Some(Stage::Needs(step)),
        Some(Publication::Failed) => fail(failure),
        Some(Publication::Outcome(CatalogPublishOutcome::Conflict)) => fail(conflict),
        Some(Publication::Outcome(_)) => None,
    }
}

fn open_stores(config: &ServerConfig, facts: &BootstrapFacts) -> (r: Option<Stage>)
    ensures
        stage_view(r) == stores_stage(*config, facts@),
{
    if config.asset_store_root.is_some() {
        let stage = require(
            facts.asset_store,
            BootstrapStep::OpenAssetStore,
            "persistent Asset store initialization failed",
        );
        if stage.is_some() {
            return stage;
        }
    }
    if config.catalog_store_path.is_some() {
        return require(
            facts.catalog_store,
            BootstrapStep::OpenCatalogStore,
            "persistent Catalog initialization failed",
        );
    }
    None
}

fn make_canvas(facts: &BootstrapFacts) -> (r: Option<Stage>)
    ensures
        stage_view(r) == made_canvas_stage(facts@),
{
    match &facts.made_canvas {
        None => Some(Stage::Needs(BootstrapStep::MakeCanvas)),
        Some(None) => fail("development Canvas configuration is invalid"),
        Some(Some(_)) => None,
    }
}

fn take_bound_canvas(binding: &BootstrapBinding, facts: &BootstrapFacts) -> (r: Option<Stage>)
    ensures
        stage_view(r) == bound_canvas_stage(binding@, facts@),
{
    match &facts.bound_canvas {
        None => Some(Stage::Needs(BootstrapStep::GetBoundCanvas(binding.canvas_id.clone()))),
        Some(CanvasLookup::Failed) => fail("Development Canvas lookup failed"),
        Some(CanvasLookup::Missing) => fail(
            "Development bootstrap binding references a missing Canvas",
        ),
        Some(CanvasLookup::Found(session_id)) => if same_text(
            session_id.as_str(),
            binding.session_id.as_str(),
        ) {
            None
        } else {
            fail("Development bootstrap Session mismatch")
        },
    }
}

fn have_canvas(config: &ServerConfig, facts: &BootstrapFacts) -> (r: Option<Stage>)
    ensures
        stage_view(r) == canvas_stage(*config, facts@),
{
    if config.catalog_store_path.is_none() {
        return make_canvas(facts);
    }
    match &facts.binding {
        None => Some(Stage::Needs(BootstrapStep::GetBinding)),
        Some(BindingFact::Failed) => fail("Development bootstrap binding lookup failed"),
        Some(BindingFact::Bound(binding)) => take_bound_canvas(binding, facts),
        Some(BindingFact::Unbound) => {
            let stage = make_canvas(facts);
            if stage.is_some() {
                return stage;
            }
            publish(
                facts.published_canvas,
                BootstrapStep::PublishCanvas,
                "Development Canvas publication failed",
                "Development Canvas identity conflict",
            )
        },
    }
}

/// Returns the Session of the development Canvas, as far as it is known.
pub fn session_of(config: &ServerConfig, facts: &BootstrapFacts) -> (r: Option<String>)
    ensures
        optional_text(r) == known_session(*config, facts@),
{
    if config.catalog_store_path.is_some() {
        match &facts.binding {
            Some(BindingFact::Bound(binding)) => {
                return Some(binding.session_id.clone());
            },
            _ => {},
        }
    }
    match &facts.made_canvas {
        Some(Some(session_id)) => Some(session_id.clone()),
        _ => None,
    }
}

fn session_to_list(config: &ServerConfig, facts: &BootstrapFacts) -> (r: Option<String>)
    requires
        canvas_stage(*config, facts@) is None,
    ensures
        optional_text(r) == listed_session(*config, facts@),
{
    if config.catalog_store_path.is_some() {
        None
    } else {
        session_of(config, facts)
    }
}

fn have_pdf(config: &ServerConfig, facts: &BootstrapFacts) -> (r: Option<Stage>)
    requires
        canvas_stage(*config, facts@) is None,
    ensures
        stage_view(r) == pdf_stage(*config, facts@),
{
    match &facts.composed {
        None => match session_of(config, facts) {
            Some(session_id) => Some(Stage::Needs(BootstrapStep::ComposePdf(session_id))),
            None => None,
        },
        Some(Err(error)) => Some(Stage::Failed(copy_error(error))),
        Some(Ok(_)) => if config.catalog_store_path.is_some() {
            publish(
                facts.published_document,
                BootstrapStep::PublishDocument,
                "Development Document publication failed",
                "development Document identity conflict",
            )
        } else {
            require(
                facts.inserted_document,
                BootstrapStep::InsertDocument,
                "development Document identity collision",
            )
        },
    }
}

fn have_documents(config: &ServerConfig, facts: &BootstrapFacts) -> (r: Option<Stage>)
    requires
        canvas_stage(*config, facts@) is None,
    ensures
        stage_view(r) == documents_stage(*config, facts@),
{
    match facts.documents {
        None => Some(Stage::Needs(BootstrapStep::ListDocuments(session_to_list(config, facts)))),
        Some(None) => fail("Development Document catalog lookup failed"),
        Some(Some(present)) => if !present && config.development_pdf_path.is_some() {
            have_pdf(config, facts)
        } else {
            None
        },
    }
}

fn have_development(config: &ServerConfig, facts: &BootstrapFacts) -> (r: Option<Stage>)
    ensures
        stage_view(r) == development_stage(*config, facts@),
{
    if !config.development_mode {
        return None;
    }
    let stage = require(
        facts.echo_handler,
        BootstrapStep::RegisterEchoHandler,
        "development handler registration failed",
    );
    if stage.is_some() {
        return stage;
    }
    let stage = have_canvas(config, facts);
    if stage.is_some() {
        return stage;
    }
    have_documents(config, facts)
}

fn have_canvas_services(config: &ServerConfig, facts: &BootstrapFacts) -> (r: Option<Stage>)
    ensures
        stage_view(r) == canvas_services_stage(*config, facts@),
{
    if config.catalog_store_path.is_none() {
        let stage = require(
            facts.canvas_catalog,
            BootstrapStep::MakeCanvasCatalog,
            "duplicate Canvas identity",
        );
        if stage.is_some() {
            return stage;
        }
    }
    if config.development_mode {
        return require(
            facts.canvas_handlers,
            BootstrapStep::RegisterCanvasHandlers,
            "Canvas handler registration failed",
        );
    }
    None
}

fn have_delivery(config: &ServerConfig, facts: &BootstrapFacts) -> (r: Option<Stage>)
    ensures
        stage_view(r) == delivery_stage(*config, facts@),
{
    if !config.asset_delivery.enabled {
        return None;
    }
    match &facts.delivery {
        None => Some(Stage::Needs(BootstrapStep::MakeDelivery)),
        Some(Err(error)) => Some(Stage::Failed(copy_error(error))),
        Some(Ok(_)) => None,
    }
}

fn have_queries(config: &ServerConfig, facts: &BootstrapFacts) -> (r: Option<Stage>)
    ensures
        stage_view(r) == queries_stage(*config, facts@),
{
    let stage = require(
        facts.document_queries,
        BootstrapStep::RegisterDocumentQueries,
        "Document Query handler registration failed",
    );
    if stage.is_some() {
        return stage;
    }
    let stage = require(
        facts.history_query,
        BootstrapStep::RegisterHistoryQuery,
        "Canvas history Query registration failed",
    );
    if stage.is_some() {
        return stage;
    }
    if config.asset_delivery.enabled {
        return require(
            facts.access_query,
            BootstrapStep::RegisterAccessQuery,
            "Asset access Query handler registration failed",
        );
    }
    None
}

fn have_checked(config: &ServerConfig, facts: &BootstrapFacts, count: usize) -> (r: Option<Stage>)
    ensures
        stage_view(r) == document_checks_stage(*config, facts@, count as int, 0),
{
    let persistent = config.catalog_store_path.is_some();
    let mut index: usize = 0;
    while index < count
        invariant
            index <= count,
            persistent == is_persistent(*config),
            document_checks_stage(*config, facts@, count as int, 0) == document_checks_stage(
                *config,
                facts@,
                count as int,
                index as int,
            ),
        decreases count - index,
    {
        if persistent {
            if facts.assets.len() <= index {
                return Some(Stage::Needs(BootstrapStep::FindAsset(index)));
            }
            match facts.assets[index] {
                AssetCheck::Failed => {
                    return fail("Document source Asset lookup failed");
                },
                AssetCheck::Missing => {
                    return fail("Document references a missing published Asset");
                },
                AssetCheck::Found => {},
            }
        }
        if facts.views.len() <= index {
            return Some(Stage::Needs(BootstrapStep::ReadView(index)));
        }
        if !facts.views[index] {
            return fail("Document read model is inconsistent");
        }
        index = index + 1;
    }
    None
}

fn have_validated(config: &ServerConfig, facts: &BootstrapFacts) -> (r: Option<Stage>)
    requires
        config.development_mode ==> canvas_stage(*config, facts@) is None,
    ensures
        stage_view(r) == validation_stage(*config, facts@),
{
    let persistent = config.catalog_store_path.is_some();
    if !persistent && !config.development_mode {
        return None;
    }
    match facts.listed {
        None => {
            let session_id = if persistent {
                None
            } else {
                session_of(config, facts)
            };
            Some(Stage::Needs(BootstrapStep::ListForValidation(session_id)))
        },
        Some(None) => fail("Document catalog validation failed"),
        Some(Some(count)) => have_checked(config, facts, count),
    }
}

fn next_open(config: &ServerConfig, facts: &BootstrapFacts) -> (r: Option<Stage>)
    ensures
        stage_view(r) == open_stage(*config, facts@),
{
    let stage = open_stores(config, facts);
    if stage.is_some() {
        return stage;
    }
    let stage = have_development(config, facts);
    if stage.is_some() {
        return stage;
    }
    let stage = have_canvas_services(config, facts);
    if stage.is_some() {
        return stage;
    }
    let stage = have_delivery(config, facts);
    if stage.is_some() {
        return stage;
    }
    let stage = have_queries(config, facts);
    if stage.is_some() {
        return stage;
    }
    have_validated(config, facts)
}

/// What came of opening the EventStore and the event bus.
#[derive(Clone, Copy, Debug)]
pub struct TransportFacts {
    /// Whether the persistent EventStore was opened.
    pub event_store: Option<bool>,
    /// Whether the event bus was made.
    pub event_bus: Option<bool>,
}

/// What opening the EventStore and the event bus does next.
#[derive(Debug)]
pub enum TransportStep {
    /// Open the persistent EventStore.
    OpenEventStore,
    /// Make the event bus with that queue capacity.
    MakeEventBus(usize),
    /// Both are there.
    Done,
    /// One of them failed.
    Fail(ServerError),
}

/// The contents of [`TransportStep`].
pub enum TransportStepView {
    /// Open the persistent EventStore.
    OpenEventStore,
    /// Make the event bus with that queue capacity.
    MakeEventBus(int),
    /// Both are there.
    Done,
    /// One of them failed.
    Fail(ServerErrorView),
}

impl View for TransportStep {
    type V = TransportStepView;

    open spec fn view(&self) -> TransportStepView {
        match *self {
            TransportStep::OpenEventStore => TransportStepView::OpenEventStore,
            TransportStep::MakeEventBus(capacity) => TransportStepView::MakeEventBus(
                capacity as int,
            ),
            TransportStep::Done => TransportStepView::Done,
            TransportStep::Fail(error) => TransportStepView::Fail(error@),
        }
    }
}

/// What opening the EventStore and the event bus does next. Without a path, the EventStore is kept
/// in memory.
pub open spec fn transport_step(config: ServerConfig, facts: TransportFacts) -> TransportStepView {
    match config.verdict() {
        Err(error) => TransportStepView::Fail(error),
        Ok(_) => if config.event_store_path is Some && facts.event_store is None {
            TransportStepView::OpenEventStore
        } else if config.event_store_path is Some && facts.event_store == Some(false) {
            TransportStepView::Fail(
                ServerErrorView::Bootstrap("SQLite EventStore initialization failed"@),
            )
        } else {
            match facts.event_bus {
                None => TransportStepView::MakeEventBus(config.subscription_queue_capacity as int),
                Some(false) => TransportStepView::Fail(
                    ServerErrorView::Bootstrap("event bus initialization failed"@),
                ),
                Some(true) => TransportStepView::Done,
            }
        },
    }
}

/// Who may read Documents and Canvas history.
#[derive(Debug, PartialEq, Eq)]
pub enum ReadScope {
    /// Nobody.
    RejectAll,
    /// Whoever asks for this one Session.
    OnlySession(String),
}

/// Composes the dependencies of a process and manages its node.
#[derive(Debug)]
pub struct Bootstrap {
    /// The configuration.
    pub config: ServerConfig,
}

impl Bootstrap {
    /// Creates a bootstrapper.
    pub fn new(config: ServerConfig) -> (r: Bootstrap)
        ensures
            r == (Bootstrap { config }),
    {
        Bootstrap { config }
    }

    /// Decides what opening the EventStore and the event bus does next.
    pub fn initialize(&self, facts: TransportFacts) -> (r: TransportStep)
        ensures
            r@ == transport_step(self.config, facts),
    {
        match self.config.validate() {
            Err(error) => {
                return TransportStep::Fail(error);
            },
            Ok(_) => {},
        }
        if self.config.event_store_path.is_some() {
            match facts.event_store {
                None => {
                    return TransportStep::OpenEventStore;
                },
                Some(done) => if !done {
                    return TransportStep::Fail(
                        ServerError::bootstrap("SQLite EventStore initialization failed"),
                    );
                },
            }
        }
        match facts.event_bus {
            None => TransportStep::MakeEventBus(self.config.subscription_queue_capacity),
            Some(done) => if done {
                TransportStep::Done
            } else {
                TransportStep::Fail(ServerError::bootstrap("event bus initialization failed"))
            },
        }
    }

    /// Decides what a composition does next.
    ///
    /// The node is registered as starting before anything is opened. Where anything fails after
    /// that, the node is registered as offline and unregistered before the failure is reported.
    pub fn initialize_with(&self, facts: &BootstrapFacts) -> (r: BootstrapDecision)
        ensures
            r@ == bootstrap_decision(self.config, facts@),
    {
        match self.config.validate() {
            Err(error) => {
                return BootstrapDecision::Done(Err(error));
            },
            Ok(_) => {},
        }
        match facts.registered {
            None => {
                return BootstrapDecision::Take(BootstrapStep::RegisterStarting);
            },
            Some(done) => if !done {
                return BootstrapDecision::Done(
                    Err(ServerError::node_lifecycle("node state registration failed")),
                );
            },
        }
        match next_open(&self.config, facts) {
            None => BootstrapDecision::Done(Ok(())),
            Some(Stage::Needs(step)) => BootstrapDecision::Take(step),
            Some(Stage::Failed(error)) => if !facts.offline_registered {
                BootstrapDecision::Take(BootstrapStep::RegisterOffline)
            } else if !facts.unregistered {
                BootstrapDecision::Take(BootstrapStep::Unregister)
            } else {
                BootstrapDecision::Done(Err(error))
            },
        }
    }

    /// Returns who may read Documents and Canvas history: nobody in production, and only the
    /// development Session in development mode.
    pub fn read_scope(&self, facts: &BootstrapFacts) -> (r: ReadScope)
        requires
            self.config.development_mode ==> known_session(self.config, facts@) is Some,
        ensures
            match r {
                ReadScope::RejectAll => !self.config.development_mode,
                ReadScope::OnlySession(session_id) => self.config.development_mode && Some(
                    session_id@,
                ) == known_session(self.config, facts@),
            },
    {
        if !self.config.development_mode {
            return ReadScope::RejectAll;
        }
        match session_of(&self.config, facts) {
            Some(session_id) => ReadScope::OnlySession(session_id),
            None => ReadScope::RejectAll,
        }
    }
}

/// A composition that fails after the node was registered takes the node away before it reports the
/// failure, and one that fails before leaves nothing to take away.
pub proof fn law_failed_composition_takes_the_node_away(
    config: ServerConfig,
    facts: BootstrapFactsView,
)
    requires
        bootstrap_decision(config, facts) matches BootstrapDecisionView::Done(Err(_)),
        config.verdict() is Ok,
        facts.registered == Some(true),
    ensures
        facts.offline_registered,
        facts.unregistered,
{
}

/// Where no check of the Documents from `index` on is open, each of them was found sound.
proof fn lemma_checked_documents(
    config: ServerConfig,
    facts: BootstrapFactsView,
    count: int,
    index: int,
    i: int,
)
    requires
        document_checks_stage(config, facts, count, index) is None,
        0 <= index <= i < count,
    ensures
        i < facts.views.len(),
        facts.views[i],
        is_persistent(config) ==> i < facts.assets.len() && facts.assets[i] == AssetCheck::Found,
    decreases i - index,
{
    if index < i {
        lemma_checked_documents(config, facts, count, index + 1, i);
    }
}

/// A process is composed only after every Document that it validates was found sound: each has a
/// consistent view and, in a persistent catalog, a published Asset.
pub proof fn law_composed_process_has_sound_documents(
    config: ServerConfig,
    facts: BootstrapFactsView,
    count: usize,
    i: int,
)
    requires
        bootstrap_decision(config, facts) == BootstrapDecisionView::Done(Ok(())),
        is_persistent(config) || config.development_mode,
        facts.listed == Some(Some(count)),
        0 <= i < count,
    ensures
        i < facts.views.len(),
        facts.views[i],
        is_persistent(config) ==> i < facts.assets.len() && facts.assets[i] == AssetCheck::Found,
{
    lemma_checked_documents(config, facts, count as int, 0, i);
}

/// The checks of the Documents need nothing but their Assets and their views.
proof fn lemma_checks_need_only_reads(
    config: ServerConfig,
    facts: BootstrapFactsView,
    count: int,
    index: int,
)
    ensures
        match document_checks_stage(config, facts, count, index) {
            Some(StageView::Needs(step)) => step is FindAsset || step is ReadView,
            _ => true,
        },
    decreases count - index,
{
    if index < count {
        lemma_checks_need_only_reads(config, facts, count, index + 1);
    }
}

/// Production mode composes nothing of development: no echo handler, no development Canvas, no PDF
/// and no Canvas handlers.
pub proof fn law_production_composes_nothing_of_development(
    config: ServerConfig,
    facts: BootstrapFactsView,
)
    requires
        !config.development_mode,
    ensures
        match bootstrap_decision(config, facts) {
            BootstrapDecisionView::Take(step) => match step {
                BootstrapStepView::RegisterEchoHandler => false,
                BootstrapStepView::GetBinding => false,
                BootstrapStepView::GetBoundCanvas(_) => false,
                BootstrapStepView::MakeCanvas => false,
                BootstrapStepView::PublishCanvas => false,
                BootstrapStepView::ListDocuments(_) => false,
                BootstrapStepView::ComposePdf(_) => false,
                BootstrapStepView::PublishDocument => false,
                BootstrapStepView::InsertDocument => false,
                BootstrapStepView::RegisterCanvasHandlers => false,
                _ => true,
            },
            _ => true,
        },
{
    if let Some(Some(count)) = facts.listed {
        lemma_checks_need_only_reads(config, facts, count as int, 0);
    }
}

/// A persistent catalog keeps its development Canvas: where it has a binding, no Canvas is made or
/// published, whatever the configuration says.
pub proof fn law_bound_canvas_is_kept(
    config: ServerConfig,
    facts: BootstrapFactsView,
    binding: BootstrapBindingView,
)
    requires
        is_persistent(config),
        facts.binding == Some(BindingFactView::Bound(binding)),
    ensures
        bootstrap_decision(config, facts) != BootstrapDecisionView::Take(
            BootstrapStepView::MakeCanvas,
        ),
        bootstrap_decision(config, facts) != BootstrapDecisionView::Take(
            BootstrapStepView::PublishCanvas,
        ),
        known_session(config, facts) == Some(binding.session_id),
{
    if let Some(Some(count)) = facts.listed {
        lemma_checks_need_only_reads(config, facts, count as int, 0);
    }
}

/// Whether the Document at the index was found to have a consistent view and, in a persistent
/// catalog, a published Asset.
pub open spec fn is_sound(facts: BootstrapFactsView, persistent: bool, i: int) -> bool {
    &&& 0 <= i < facts.views.len()
    &&& facts.views[i]
    &&& persistent ==> i < facts.assets.len() && facts.assets[i] == AssetCheck::Found
}

/// What a composed process has: the composition ends well exactly where the configuration can be
/// used and everything that it asks for was done. In development mode that is the echo handler, the
/// development Canvas and, where a PDF is configured and no Document was there, its Document; every
/// Document that is validated has a consistent view and, in a persistent catalog, a published
/// Asset.
pub proof fn law_composed_process_is_complete(config: ServerConfig, facts: BootstrapFactsView)
    ensures
        bootstrap_decision(config, facts) == BootstrapDecisionView::Done(Ok(())) <==> {
            let persistent = config.catalog_store_path is Some;
            &&& config.verdict() is Ok
            &&& facts.registered == Some(true)
            &&& config.asset_store_root is Some ==> facts.asset_store == Some(true)
            &&& persistent ==> facts.catalog_store == Some(true)
            &&& config.development_mode ==> {
                &&& facts.echo_handler == Some(true)
                &&& !persistent ==> (facts.made_canvas matches Some(Some(_)))
                &&& persistent ==> match facts.binding {
                    Some(BindingFactView::Bound(binding)) => facts.bound_canvas == Some(
                        CanvasLookupView::Found(binding.session_id),
                    ),
                    Some(BindingFactView::Unbound) => (facts.made_canvas matches Some(Some(_))) && (
                    facts.published_canvas == Some(
                        Publication::Outcome(CatalogPublishOutcome::Inserted),
                    ) || facts.published_canvas == Some(
                        Publication::Outcome(CatalogPublishOutcome::Existing),
                    )),
                    _ => false,
                }
                &&& facts.documents == Some(Some(true)) || (facts.documents
                    == Some(Some(false)) && (
                config.development_pdf_path is Some ==> (facts.composed matches Some(Ok(_))) && (
                if persistent {
                    facts.published_document == Some(
                        Publication::Outcome(CatalogPublishOutcome::Inserted),
                    ) || facts.published_document == Some(
                        Publication::Outcome(CatalogPublishOutcome::Existing),
                    )
                } else {
                    facts.inserted_document == Some(true)
                })))
                &&& facts.canvas_handlers == Some(true)
            }
            &&& !persistent ==> facts.canvas_catalog == Some(true)
            &&& config.asset_delivery.enabled ==> (facts.delivery matches Some(Ok(_)))
                && facts.access_query == Some(true)
            &&& facts.document_queries == Some(true)
            &&& facts.history_query == Some(true)
            &&& persistent || config.development_mode ==> (facts.listed matches Some(Some(count))
                && forall|i: int| 0 <= i < count ==> #[trigger] is_sound(facts, persistent, i))
        },
{
    lemma_known(facts.registered);
    lemma_known(facts.asset_store);
    lemma_known(facts.catalog_store);
    lemma_known(facts.echo_handler);
    lemma_known(facts.inserted_document);
    lemma_known(facts.canvas_handlers);
    lemma_known(facts.canvas_catalog);
    lemma_known(facts.document_queries);
    lemma_known(facts.history_query);
    lemma_known(facts.access_query);
    if let Some(documents) = facts.documents {
        lemma_known(documents);
    }
    let persistent = config.catalog_store_path is Some;
    if let Some(Some(count)) = facts.listed {
        if document_checks_stage(config, facts, count as int, 0) is None {
            assert forall|i: int| 0 <= i < count implies #[trigger] is_sound(
                facts,
                persistent,
                i,
            ) by {
                lemma_checked_documents(config, facts, count as int, 0, i);
            }
        }
        if forall|i: int| 0 <= i < count ==> #[trigger] is_sound(facts, persistent, i) {
            lemma_sound_documents_pass(config, facts, count as int, 0);
        }
    }
}

proof fn lemma_sound_documents_pass(
    config: ServerConfig,
    facts: BootstrapFactsView,
    count: int,
    index: int,
)
    requires
        0 <= index,
        forall|i: int|
            0 <= i < count ==> #[trigger] is_sound(facts, config.catalog_store_path is Some, i),
    ensures
        document_checks_stage(config, facts, count, index) is None,
    decreases count - index,
{
    if index < count {
        assert(is_sound(facts, config.catalog_store_path is Some, index));
        lemma_sound_documents_pass(config, facts, count, index + 1);
    }
}

/// The Documents of a catalog are kept over a restart: where the catalog was found to hold any, the
/// development PDF is neither made into a Document nor stored once more, whatever is configured.
/// Where it holds none, development mode with a configured PDF makes and stores its Document before
/// anything of the Canvases or the Queries is set up.
pub proof fn law_stored_documents_are_not_composed_again(
    config: ServerConfig,
    facts: BootstrapFactsView,
)
    ensures
        bootstrap_decision(config, facts) matches BootstrapDecisionView::Take(step) && (
        step is ComposePdf || step is PublishDocument || step is InsertDocument) ==> {
            &&& facts.documents == Some(Some(false))
            &&& config.development_mode
            &&& config.development_pdf_path is Some
        },
        facts.documents == Some(Some(false)) && config.development_mode
            && config.development_pdf_path is Some && !(facts.composed matches Some(Ok(_)))
            ==> match bootstrap_decision(config, facts) {
            BootstrapDecisionView::Done(result) => result is Err,
            BootstrapDecisionView::Take(step) => !(step is MakeCanvasCatalog
                || step is RegisterCanvasHandlers || step is MakeDelivery
                || step is RegisterDocumentQueries || step is RegisterHistoryQuery
                || step is RegisterAccessQuery || step is ListForValidation),
        },
{
    if let Some(Some(count)) = facts.listed {
        lemma_checks_need_only_reads(config, facts, count as int, 0);
    }
}

/// The checks of the Documents go in order, and each asks for what is not known yet.
proof fn lemma_checks_go_in_order(
    config: ServerConfig,
    facts: BootstrapFactsView,
    count: int,
    index: int,
)
    requires
        0 <= index,
        facts.views.len() >= index,
        is_persistent(config) ==> facts.assets.len() >= index,
    ensures
        match document_checks_stage(config, facts, count, index) {
            Some(StageView::Needs(BootstrapStepView::FindAsset(i))) => is_persistent(config) && i
                == facts.assets.len() && i < count,
            Some(StageView::Needs(BootstrapStepView::ReadView(i))) => i == facts.views.len() && i
                < count,
            Some(StageView::Needs(_)) => false,
            _ => true,
        },
    decreases count - index,
{
    if index < count {
        if facts.views.len() > index && (is_persistent(config) ==> facts.assets.len() > index) {
            lemma_checks_go_in_order(config, facts, count, index + 1);
        }
    }
}

/// A step is taken only where the configuration asks for it, nothing is known of it yet, and what
/// it builds on was done; and it is taken for what it is about: the Canvas that the binding names,
/// the Session of the development Canvas, and the next Document.
pub proof fn law_steps_are_taken_where_they_are_due(
    config: ServerConfig,
    facts: BootstrapFactsView,
    step: BootstrapStepView,
)
    requires
        bootstrap_decision(config, facts) == BootstrapDecisionView::Take(step),
    ensures
        config.verdict() is Ok,
        !(step is RegisterStarting) ==> facts.registered == Some(true),
        ({
            let persistent = config.catalog_store_path is Some;
            let stores = (config.asset_store_root is Some ==> facts.asset_store == Some(true)) && (
            persistent ==> facts.catalog_store == Some(true));
            let session = if persistent {
                match facts.binding {
                    Some(BindingFactView::Bound(binding)) => Some(binding.session_id),
                    _ => match facts.made_canvas {
                        Some(made) => made,
                        None => None,
                    },
                }
            } else {
                match facts.made_canvas {
                    Some(made) => made,
                    None => None,
                }
            };
            let developed = stores && (config.development_mode ==> facts.echo_handler == Some(true)
                && session is Some && (facts.documents == Some(Some(true)) || (facts.documents
                == Some(Some(false)) && (config.development_pdf_path is Some ==> (
            facts.composed matches Some(Ok(_)))))));
            let canvases = developed && (!persistent ==> facts.canvas_catalog == Some(true)) && (
            config.development_mode ==> facts.canvas_handlers == Some(true));
            let delivered = canvases && (config.asset_delivery.enabled ==> (
            facts.delivery matches Some(Ok(_))));
            let queried = delivered && facts.document_queries == Some(true) && facts.history_query
                == Some(true) && (config.asset_delivery.enabled ==> facts.access_query == Some(
                true,
            ));
            match step {
                BootstrapStepView::RegisterStarting => facts.registered is None,
                BootstrapStepView::OpenAssetStore => config.asset_store_root is Some
                    && facts.asset_store is None,
                BootstrapStepView::OpenCatalogStore => persistent
                    && facts.catalog_store is None && (
                config.asset_store_root is Some ==> facts.asset_store == Some(true)),
                BootstrapStepView::RegisterEchoHandler => stores && config.development_mode
                    && facts.echo_handler is None,
                BootstrapStepView::GetBinding => stores && config.development_mode && persistent
                    && facts.echo_handler == Some(true) && facts.binding is None,
                BootstrapStepView::GetBoundCanvas(id) => stores && config.development_mode
                    && persistent && (facts.binding matches Some(BindingFactView::Bound(binding))
                    && binding.canvas_id == id) && facts.bound_canvas is None,
                BootstrapStepView::MakeCanvas => stores && config.development_mode
                    && facts.made_canvas is None && (persistent ==> facts.binding == Some(
                    BindingFactView::Unbound,
                )),
                BootstrapStepView::PublishCanvas => stores && config.development_mode && persistent
                    && facts.binding == Some(BindingFactView::Unbound) && (
                facts.made_canvas matches Some(Some(_))) && facts.published_canvas is None,
                BootstrapStepView::ListDocuments(listed) => stores && config.development_mode
                    && facts.documents is None && session is Some && listed == if persistent {
                    None
                } else {
                    session
                },
                BootstrapStepView::ComposePdf(id) => stores && facts.echo_handler == Some(true)
                    && config.development_mode
                    && config.development_pdf_path is Some && facts.composed is None
                    && session == Some(id),
                BootstrapStepView::PublishDocument => persistent && (
                facts.composed matches Some(Ok(_))) && facts.published_document is None,
                BootstrapStepView::InsertDocument => !persistent && (
                facts.composed matches Some(Ok(_))) && facts.inserted_document is None,
                BootstrapStepView::MakeCanvasCatalog => developed && !persistent
                    && facts.canvas_catalog is None,
                BootstrapStepView::RegisterCanvasHandlers => developed && (!persistent
                    ==> facts.canvas_catalog == Some(true)) && config.development_mode
                        && facts.canvas_handlers is None,
                BootstrapStepView::MakeDelivery => canvases && config.asset_delivery.enabled
                    && facts.delivery is None,
                BootstrapStepView::RegisterDocumentQueries => delivered
                    && facts.document_queries is None,
                BootstrapStepView::RegisterHistoryQuery => delivered
                    && facts.document_queries == Some(true) && facts.history_query is None,
                BootstrapStepView::RegisterAccessQuery => delivered
                    && facts.document_queries == Some(true) && facts.history_query
                        == Some(true) && config.asset_delivery.enabled
                    && facts.access_query is None && (facts.delivery matches Some(Ok(_))),
                BootstrapStepView::ListForValidation(listed) => queried && (persistent
                    || config.development_mode) && facts.listed is None && facts.document_queries
                    == Some(true) && facts.history_query == Some(true) && listed == if persistent {
                    None
                } else {
                    session
                },
                BootstrapStepView::FindAsset(i) => queried && persistent && i
                    == facts.assets.len() && (
                facts.listed matches Some(Some(count)) && i < count),
                BootstrapStepView::ReadView(i) => queried && i == facts.views.len() && (
                facts.listed matches Some(Some(count)) && i < count),
                BootstrapStepView::RegisterOffline => !facts.offline_registered,
                BootstrapStepView::Unregister => facts.offline_registered && !facts.unregistered,
            }
        }),
{
    lemma_known(facts.registered);
    lemma_known(facts.asset_store);
    lemma_known(facts.catalog_store);
    lemma_known(facts.echo_handler);
    lemma_known(facts.canvas_handlers);
    lemma_known(facts.canvas_catalog);
    lemma_known(facts.document_queries);
    lemma_known(facts.history_query);
    lemma_known(facts.access_query);
    if let Some(documents) = facts.documents {
        lemma_known(documents);
    }
    if let Some(Some(count)) = facts.listed {
        lemma_checks_go_in_order(config, facts, count as int, 0);
    }
}

/// A composition that met a failure goes no further: whatever failed of what the configuration asks
/// for, no other step is taken than to take the node away, and the composition does not end well.
pub proof fn law_composition_stops_at_a_failure(config: ServerConfig, facts: BootstrapFactsView)
    requires
        config.verdict() is Ok,
        facts.registered == Some(true),
        ({
            let persistent = config.catalog_store_path is Some;
            ||| config.asset_store_root is Some && facts.asset_store == Some(false)
            ||| (config.asset_store_root is None || facts.asset_store == Some(true)) && persistent
                && facts.catalog_store == Some(false)
            ||| (config.asset_store_root is None || facts.asset_store == Some(true)) && (!persistent
                || facts.catalog_store == Some(true)) && config.development_mode && (
            facts.echo_handler == Some(false) || (facts.echo_handler == Some(true)
                && (persistent && (
            facts.binding == Some(BindingFactView::Failed) || (
            facts.binding matches Some(BindingFactView::Bound(binding)) && (
            facts.bound_canvas == Some(CanvasLookupView::Failed) || facts.bound_canvas == Some(
                CanvasLookupView::Missing,
            ) || (facts.bound_canvas matches Some(CanvasLookupView::Found(session)) && session
                != binding.session_id))) || (facts.binding == Some(BindingFactView::Unbound) && (
            facts.made_canvas == Some(None::<Seq<char>>) || (
            facts.made_canvas matches Some(Some(_)) && (facts.published_canvas == Some(
                Publication::Failed,
            ) || facts.published_canvas == Some(
                Publication::Outcome(CatalogPublishOutcome::Conflict),
            )))))) || !persistent && facts.made_canvas == Some(None::<Seq<char>>))))
        }),
    ensures
        match bootstrap_decision(config, facts) {
            BootstrapDecisionView::Take(step) => step is RegisterOffline || step is Unregister,
            BootstrapDecisionView::Done(result) => result is Err && facts.offline_registered
                && facts.unregistered,
        },
{
}

/// Without a path the EventStore is kept in memory; with one it is opened before anything else. The
/// event bus has the configured queue capacity, and both have to be there in the end.
pub proof fn law_transport_is_opened_in_order(config: ServerConfig, facts: TransportFacts)
    ensures
        transport_step(config, facts) is Done <==> config.verdict() is Ok && (
        config.event_store_path is Some ==> facts.event_store == Some(true)) && facts.event_bus
            == Some(true),
        transport_step(config, facts) is OpenEventStore <==> config.verdict() is Ok
            && config.event_store_path is Some && facts.event_store is None,
        transport_step(config, facts) matches TransportStepView::MakeEventBus(capacity) ==> capacity
            == config.subscription_queue_capacity && facts.event_bus is None && (
        config.event_store_path is Some ==> facts.event_store == Some(true)),
        config.verdict() matches Err(error) ==> transport_step(config, facts)
            == TransportStepView::Fail(error),
        transport_step(config, facts) is Fail ==> config.verdict() is Err || (
        config.event_store_path is Some && facts.event_store == Some(false)) || facts.event_bus
            == Some(false),
{
    lemma_known(facts.event_store);
    lemma_known(facts.event_bus);
}

/// A composition that would be complete but for one step that failed reports that step, once the
/// node was taken away.
pub proof fn law_failed_steps_are_reported(
    config: ServerConfig,
    facts: BootstrapFactsView,
    error: ServerErrorView,
)
    requires
        bootstrap_decision(config, facts) == BootstrapDecisionView::Done(Ok(())),
        facts.offline_registered,
        facts.unregistered,
    ensures
        config.asset_store_root is Some
            ==> bootstrap_decision(config, BootstrapFactsView { asset_store: Some(false), ..facts })
            == BootstrapDecisionView::Done(
            Err(
                ServerErrorView::Bootstrap("persistent Asset store initialization failed"@),
            ),
        ),
        config.catalog_store_path is Some
            ==> bootstrap_decision(
                config,
                BootstrapFactsView { catalog_store: Some(false), ..facts },
            )
            == BootstrapDecisionView::Done(
            Err(
                ServerErrorView::Bootstrap("persistent Catalog initialization failed"@),
            ),
        ),
        config.development_mode
            ==> bootstrap_decision(
                config,
                BootstrapFactsView { echo_handler: Some(false), ..facts },
            )
            == BootstrapDecisionView::Done(
            Err(
                ServerErrorView::Bootstrap("development handler registration failed"@),
            ),
        ),
        config.development_mode && config.catalog_store_path is Some
            ==> bootstrap_decision(
                config,
                BootstrapFactsView { binding: Some(BindingFactView::Failed), ..facts },
            )
            == BootstrapDecisionView::Done(
            Err(
                ServerErrorView::Bootstrap("Development bootstrap binding lookup failed"@),
            ),
        ),
        config.development_mode && config.catalog_store_path is Some && (facts.binding matches Some(
            BindingFactView::Bound(_),
        )) ==> bootstrap_decision(
            config,
            BootstrapFactsView { bound_canvas: Some(CanvasLookupView::Failed), ..facts },
        )
            == BootstrapDecisionView::Done(
            Err(
                ServerErrorView::Bootstrap("Development Canvas lookup failed"@),
            ),
        ),
        config.development_mode && config.catalog_store_path is Some && (facts.binding matches Some(
            BindingFactView::Bound(_),
        )) ==> bootstrap_decision(
            config,
            BootstrapFactsView { bound_canvas: Some(CanvasLookupView::Missing), ..facts },
        )
            == BootstrapDecisionView::Done(
            Err(
                ServerErrorView::Bootstrap("Development bootstrap binding references a missing Canvas"@),
            ),
        ),
        config.development_mode && config.catalog_store_path is None
            ==> bootstrap_decision(config, BootstrapFactsView { made_canvas: Some(None), ..facts })
            == BootstrapDecisionView::Done(
            Err(
                ServerErrorView::Bootstrap("development Canvas configuration is invalid"@),
            ),
        ),
        config.development_mode && config.catalog_store_path is Some && facts.binding == Some(
            BindingFactView::Unbound,
        ) ==> bootstrap_decision(
            config,
            BootstrapFactsView { published_canvas: Some(Publication::Failed), ..facts },
        )
            == BootstrapDecisionView::Done(
            Err(
                ServerErrorView::Bootstrap("Development Canvas publication failed"@),
            ),
        ),
        config.development_mode && config.catalog_store_path is Some && facts.binding == Some(
            BindingFactView::Unbound,
        ) ==> bootstrap_decision(
            config,
            BootstrapFactsView { published_canvas: Some(Publication::Outcome(CatalogPublishOutcome::Conflict)), ..facts },
        )
            == BootstrapDecisionView::Done(
            Err(
                ServerErrorView::Bootstrap("Development Canvas identity conflict"@),
            ),
        ),
        config.development_mode
            ==> bootstrap_decision(config, BootstrapFactsView { documents: Some(None), ..facts })
            == BootstrapDecisionView::Done(
            Err(
                ServerErrorView::Bootstrap("Development Document catalog lookup failed"@),
            ),
        ),
        config.development_mode && facts.documents == Some(Some(false))
            && config.development_pdf_path is Some && config.catalog_store_path is Some
                ==> bootstrap_decision(
                    config,
                    BootstrapFactsView { published_document: Some(Publication::Failed), ..facts },
                )
            == BootstrapDecisionView::Done(
            Err(
                ServerErrorView::Bootstrap("Development Document publication failed"@),
            ),
        ),
        config.development_mode && facts.documents == Some(Some(false))
            && config.development_pdf_path is Some && config.catalog_store_path is Some
                ==> bootstrap_decision(
                    config,
                    BootstrapFactsView { published_document: Some(Publication::Outcome(CatalogPublishOutcome::Conflict)), ..facts },
                )
            == BootstrapDecisionView::Done(
            Err(
                ServerErrorView::Bootstrap("development Document identity conflict"@),
            ),
        ),
        config.development_mode && facts.documents == Some(Some(false))
            && config.development_pdf_path is Some && config.catalog_store_path is None
                ==> bootstrap_decision(
                    config,
                    BootstrapFactsView { inserted_document: Some(false), ..facts },
                )
            == BootstrapDecisionView::Done(
            Err(
                ServerErrorView::Bootstrap("development Document identity collision"@),
            ),
        ),
        config.catalog_store_path is None
            ==> bootstrap_decision(
                config,
                BootstrapFactsView { canvas_catalog: Some(false), ..facts },
            )
            == BootstrapDecisionView::Done(
            Err(
                ServerErrorView::Bootstrap("duplicate Canvas identity"@),
            ),
        ),
        config.development_mode
            ==> bootstrap_decision(
                config,
                BootstrapFactsView { canvas_handlers: Some(false), ..facts },
            )
            == BootstrapDecisionView::Done(
            Err(
                ServerErrorView::Bootstrap("Canvas handler registration failed"@),
            ),
        ),
        bootstrap_decision(config, BootstrapFactsView { document_queries: Some(false), ..facts })
            == BootstrapDecisionView::Done(
            Err(
                ServerErrorView::Bootstrap("Document Query handler registration failed"@),
            ),
        ),
        bootstrap_decision(config, BootstrapFactsView { history_query: Some(false), ..facts })
            == BootstrapDecisionView::Done(
            Err(
                ServerErrorView::Bootstrap("Canvas history Query registration failed"@),
            ),
        ),
        config.asset_delivery.enabled
            ==> bootstrap_decision(
                config,
                BootstrapFactsView { access_query: Some(false), ..facts },
            )
            == BootstrapDecisionView::Done(
            Err(
                ServerErrorView::Bootstrap("Asset access Query handler registration failed"@),
            ),
        ),
        (config.catalog_store_path is Some || config.development_mode)
            ==> bootstrap_decision(config, BootstrapFactsView { listed: Some(None), ..facts })
            == BootstrapDecisionView::Done(
            Err(
                ServerErrorView::Bootstrap("Document catalog validation failed"@),
            ),
        ),
        bootstrap_decision(config, BootstrapFactsView { registered: Some(false), ..facts })
            == BootstrapDecisionView::Done(
            Err(ServerErrorView::NodeLifecycle("node state registration failed"@)),
        ),
        config.development_mode && facts.documents == Some(Some(false))
            && config.development_pdf_path is Some ==> bootstrap_decision(
            config,
            BootstrapFactsView { composed: Some(Err(error)), ..facts },
        ) == BootstrapDecisionView::Done(Err(error)),
        config.asset_delivery.enabled ==> bootstrap_decision(
            config,
            BootstrapFactsView { delivery: Some(Err(error)), ..facts },
        ) == BootstrapDecisionView::Done(Err(error)),
{
    law_composed_process_is_complete(config, facts);
}

/// The facts of a composition show what they hold.
pub proof fn law_views_of_compositions(facts: BootstrapFacts)
    ensures
        facts@.registered == facts.registered,
        facts@.asset_store == facts.asset_store,
        facts@.catalog_store == facts.catalog_store,
        facts@.echo_handler == facts.echo_handler,
        facts@.published_canvas == facts.published_canvas,
        facts@.documents == facts.documents,
        facts@.published_document == facts.published_document,
        facts@.inserted_document == facts.inserted_document,
        facts@.canvas_catalog == facts.canvas_catalog,
        facts@.canvas_handlers == facts.canvas_handlers,
        facts@.document_queries == facts.document_queries,
        facts@.history_query == facts.history_query,
        facts@.access_query == facts.access_query,
        facts@.listed == facts.listed,
        facts@.offline_registered == facts.offline_registered,
        facts@.unregistered == facts.unregistered,
        facts@.assets == facts.assets@,
        facts@.views == facts.views@,
        facts@.binding == match facts.binding {
            None => None,
            Some(fact) => Some(fact@),
        },
        facts@.bound_canvas == match facts.bound_canvas {
            None => None,
            Some(found) => Some(found@),
        },
        facts@.made_canvas == match facts.made_canvas {
            None => None,
            Some(session) => Some(optional_text(session)),
        },
        facts@.composed is Some <==> facts.composed is Some,
        facts.composed matches Some(Ok(_)) ==> facts@.composed == Some(
            Ok::<(), ServerErrorView>(()),
        ),
        facts.composed matches Some(Err(error)) ==> facts@.composed == Some(
            Err::<(), ServerErrorView>(error@),
        ),
{
}

} // verus!
