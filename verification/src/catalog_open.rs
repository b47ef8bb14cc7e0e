//! Opening of the persistent catalog.
//!
//! Opening is driven by asking [`initialize_storage`] again and again, each time with what came of
//! the step it named last, until it names the outcome. An operation of SQLite that failed comes
//! with the error as SQLite shows it.

use vstd::prelude::*;

use crate::catalog::{
    catalog_view, check_integrity_report, check_physical_store_id, check_schema_version,
    schema_verdict, unavailable, CatalogErrorView, CatalogStoreError,
};
use crate::facts::lemma_known;
use crate::text::{optional_text, signed_value};

verus! {

/// The tables and indexes of the catalog database.
pub const SCHEMA: &'static str = "
    CREATE TABLE IF NOT EXISTS storage_metadata (
        key TEXT PRIMARY KEY NOT NULL,
        value TEXT NOT NULL
    );
    CREATE TABLE IF NOT EXISTS documents (
        document_id TEXT PRIMARY KEY NOT NULL,
        session_id TEXT NOT NULL,
        document_type TEXT NOT NULL,
        source_asset_id TEXT NOT NULL,
        title TEXT NOT NULL,
        page_count INTEGER NOT NULL,
        publication_sequence INTEGER NOT NULL UNIQUE
    );
    CREATE TABLE IF NOT EXISTS canvases (
        canvas_id TEXT PRIMARY KEY NOT NULL,
        session_id TEXT NOT NULL,
        width REAL NOT NULL,
        height REAL NOT NULL,
        layer_count INTEGER NOT NULL,
        default_layer_id TEXT NOT NULL,
        FOREIGN KEY (canvas_id, default_layer_id)
            REFERENCES layers(canvas_id, layer_id)
            DEFERRABLE INITIALLY DEFERRED
    );
    CREATE TABLE IF NOT EXISTS layers (
        canvas_id TEXT NOT NULL,
        layer_id TEXT PRIMARY KEY NOT NULL,
        FOREIGN KEY (canvas_id) REFERENCES canvases(canvas_id),
        UNIQUE (canvas_id, layer_id)
    );
    CREATE TABLE IF NOT EXISTS document_pages (
        page_id TEXT PRIMARY KEY NOT NULL,
        document_id TEXT NOT NULL,
        page_index INTEGER NOT NULL,
        width REAL NOT NULL,
        height REAL NOT NULL,
        rotation INTEGER NOT NULL,
        overlay_canvas_id TEXT NOT NULL,
        FOREIGN KEY (document_id) REFERENCES documents(document_id),
        FOREIGN KEY (overlay_canvas_id) REFERENCES canvases(canvas_id),
        UNIQUE (document_id, page_index),
        UNIQUE (document_id, overlay_canvas_id)
    );
    CREATE TABLE IF NOT EXISTS bootstrap_bindings (
        binding_key TEXT PRIMARY KEY NOT NULL,
        session_id TEXT NOT NULL,
        canvas_id TEXT NOT NULL,
        FOREIGN KEY (canvas_id) REFERENCES canvases(canvas_id)
    );
    CREATE INDEX IF NOT EXISTS documents_session_sequence
        ON documents(session_id, publication_sequence);
    CREATE INDEX IF NOT EXISTS pages_document_index
        ON document_pages(document_id, page_index);
    CREATE INDEX IF NOT EXISTS layers_canvas
        ON layers(canvas_id, layer_id);
";

/// What came of opening the database so far.
#[derive(Debug)]
pub struct OpenFacts {
    /// Whether the directory of the database was created, if it has one.
    pub directory: Option<bool>,
    /// Whether the database was opened.
    pub opened: Option<Result<(), String>>,
    /// Whether foreign keys were switched on.
    pub foreign_keys: Option<Result<(), String>>,
    /// Whether write-ahead logging was switched on.
    pub journal: Option<Result<(), String>>,
    /// Whether the synchronization level was set.
    pub synchronous: Option<Result<(), String>>,
    /// Whether the busy timeout was set.
    pub busy_timeout: Option<Result<(), String>>,
    /// Whether the tables were created where they were missing.
    pub schema: Option<Result<(), String>>,
    /// Whether the supported schema version was stored where there was none.
    pub version_ensured: Option<Result<(), String>>,
    /// Whether there is a stored store identity.
    pub identity_present: Option<Result<bool, String>>,
    /// Whether the fresh store identity was stored.
    pub identity_created: Option<Result<(), String>>,
    /// The stored schema version.
    pub version: Option<Result<Option<String>, String>>,
    /// The stored store identity, if there is one; none inside where the stored text is no identity.
    pub identity: Option<Result<Option<Option<String>>, String>>,
    /// What the physical integrity check reported.
    pub report: Option<Result<String, String>>,
    /// What the integrity scan found.
    pub scanned: Option<Result<(), CatalogStoreError>>,
}

/// The contents of [`OpenFacts`].
pub struct OpenFactsView {
    /// Whether the directory of the database was created, if it has one.
    pub directory: Option<bool>,
    /// Whether the database was opened.
    pub opened: Option<Result<(), Seq<char>>>,
    /// Whether foreign keys were switched on.
    pub foreign_keys: Option<Result<(), Seq<char>>>,
    /// Whether write-ahead logging was switched on.
    pub journal: Option<Result<(), Seq<char>>>,
    /// Whether the synchronization level was set.
    pub synchronous: Option<Result<(), Seq<char>>>,
    /// Whether the busy timeout was set.
    pub busy_timeout: Option<Result<(), Seq<char>>>,
    /// Whether the tables were created where they were missing.
    pub schema: Option<Result<(), Seq<char>>>,
    /// Whether the supported schema version was stored where there was none.
    pub version_ensured: Option<Result<(), Seq<char>>>,
    /// Whether there is a stored store identity.
    pub identity_present: Option<Result<bool, Seq<char>>>,
    /// Whether the fresh store identity was stored.
    pub identity_created: Option<Result<(), Seq<char>>>,
    /// The stored schema version.
    pub version: Option<Result<Option<Seq<char>>, Seq<char>>>,
    /// The stored store identity, if there is one; none inside where the stored text is no identity.
    pub identity: Option<Result<Option<Option<Seq<char>>>, Seq<char>>>,
    /// What the physical integrity check reported.
    pub report: Option<Result<Seq<char>, Seq<char>>>,
    /// What the integrity scan found.
    pub scanned: Option<Result<(), CatalogErrorView>>,
}

/// The contents of what came of an operation of SQLite.
pub open spec fn plain_fact<T>(fact: Option<Result<T, String>>) -> Option<Result<T, Seq<char>>> {
    match fact {
        None => None,
        Some(Ok(value)) => Some(Ok(value)),
        Some(Err(shown)) => Some(Err(shown@)),
    }
}

impl View for OpenFacts {
    type V = OpenFactsView;

    open spec fn view(&self) -> OpenFactsView {
        OpenFactsView {
            directory: self.directory,
            opened: plain_fact(self.opened),
            foreign_keys: plain_fact(self.foreign_keys),
            journal: plain_fact(self.journal),
            synchronous: plain_fact(self.synchronous),
            busy_timeout: plain_fact(self.busy_timeout),
            schema: plain_fact(self.schema),
            version_ensured: plain_fact(self.version_ensured),
            identity_present: plain_fact(self.identity_present),
            identity_created: plain_fact(self.identity_created),
            version: match self.version {
                None => None,
                Some(Ok(text)) => Some(Ok(optional_text(text))),
                Some(Err(shown)) => Some(Err(shown@)),
            },
            identity: match self.identity {
                None => None,
                Some(Ok(None)) => Some(Ok(None)),
                Some(Ok(Some(text))) => Some(Ok(Some(optional_text(text)))),
                Some(Err(shown)) => Some(Err(shown@)),
            },
            report: match self.report {
                None => None,
                Some(Ok(text)) => Some(Ok(text@)),
                Some(Err(shown)) => Some(Err(shown@)),
            },
            scanned: match self.scanned {
                None => None,
                Some(result) => Some(catalog_view(result)),
            },
        }
    }
}

impl OpenFacts {
    /// Creates the facts of an opening in which nothing was done yet.
    pub fn new() -> (r: OpenFacts)
        ensures
            r@ == (OpenFactsView {
                directory: None,
                opened: None,
                foreign_keys: None,
                journal: None,
                synchronous: None,
                busy_timeout: None,
                schema: None,
                version_ensured: None,
                identity_present: None,
                identity_created: None,
                version: None,
                identity: None,
                report: None,
                scanned: None,
            }),
    {
        OpenFacts {
            directory: None,
            opened: None,
            foreign_keys: None,
            journal: None,
            synchronous: None,
            busy_timeout: None,
            schema: None,
            version_ensured: None,
            identity_present: None,
            identity_created: None,
            version: None,
            identity: None,
            report: None,
            scanned: None,
        }
    }
}

/// A step of opening the database.
#[derive(Clone, Copy, Debug, PartialEq, Eq, Structural)]
pub enum OpenStep {
    /// Create the directory of the database, if it has one.
    CreateDirectory,
    /// Open the database.
    Open,
    /// Switch on foreign keys.
    EnableForeignKeys,
    /// Switch on write-ahead logging.
    EnableWriteAheadLog,
    /// Set the synchronization level.
    SetSynchronous,
    /// Set the busy timeout.
    SetBusyTimeout,
    /// Create the tables where they are missing.
    CreateSchema,
    /// Store the supported schema version where there is none.
    EnsureVersion,
    /// Look for a stored store identity.
    FindIdentity,
    /// Read the stored schema version.
    ReadVersion,
    /// Read the stored store identity.
    ReadIdentity,
    /// Run the physical integrity check.
    CheckIntegrity,
    /// Scan the whole catalog.
    Scan,
}

/// Where a stage of the opening stands, if it has not passed.
#[derive(Debug)]
pub enum OpenStage {
    /// The stage needs a step.
    Needs(OpenStep),
    /// The stage needs the text to be stored as the store identity.
    StoreIdentity(String),
    /// The stage failed.
    Failed(CatalogStoreError),
    /// All stages have passed: the catalog is open, and has the identity.
    Opened(String),
}

/// The contents of [`OpenStage`].
pub enum OpenStageView {
    /// The stage needs a step.
    Needs(OpenStep),
    /// The stage needs the text to be stored as the store identity.
    StoreIdentity(Seq<char>),
    /// The stage failed.
    Failed(CatalogErrorView),
    /// All stages have passed: the catalog is open, and has the identity.
    Opened(Seq<char>),
}

impl View for OpenStage {
    type V = OpenStageView;

    open spec fn view(&self) -> OpenStageView {
        match *self {
            OpenStage::Needs(step) => OpenStageView::Needs(step),
            OpenStage::StoreIdentity(identity) => OpenStageView::StoreIdentity(identity@),
            OpenStage::Failed(error) => OpenStageView::Failed(error@),
            OpenStage::Opened(identity) => OpenStageView::Opened(identity@),
        }
    }
}

/// The contents of an optional stage.
pub open spec fn stage_view(stage: Option<OpenStage>) -> Option<OpenStageView> {
    match stage {
        None => None,
        Some(stage) => Some(stage@),
    }
}

/// The first stage that has not passed.
pub open spec fn first_open(first: Option<OpenStageView>, second: Option<OpenStageView>) -> Option<
    OpenStageView,
> {
    if first is Some {
        first
    } else {
        second
    }
}

/// A stage that SQLite failed.
pub open spec fn backend_failure(shown: Seq<char>) -> Option<OpenStageView> {
    Some(OpenStageView::Failed(CatalogErrorView::Backend(shown)))
}

/// A stage that is one operation of SQLite, which has to succeed.
pub open spec fn sqlite_stage(fact: Option<Result<(), Seq<char>>>, step: OpenStep) -> Option<
    OpenStageView,
> {
    match fact {
        None => Some(OpenStageView::Needs(step)),
        Some(Ok(_)) => None,
        Some(Err(shown)) => backend_failure(shown),
    }
}

/// A stage that ends with a verdict.
pub open spec fn verdict_stage(verdict: Result<(), CatalogErrorView>) -> Option<OpenStageView> {
    match verdict {
        Ok(_) => None,
        Err(error) => Some(OpenStageView::Failed(error)),
    }
}

/// Having a store identity: a new database gets the fresh one.
pub open spec fn new_identity_stage(facts: OpenFactsView, fresh: Seq<char>) -> Option<
    OpenStageView,
> {
    match facts.identity_present {
        None => Some(OpenStageView::Needs(OpenStep::FindIdentity)),
        Some(Err(shown)) => backend_failure(shown),
        Some(Ok(true)) => None,
        Some(Ok(false)) => match facts.identity_created {
            None => Some(OpenStageView::StoreIdentity(fresh)),
            Some(Ok(_)) => None,
            Some(Err(shown)) => backend_failure(shown),
        },
    }
}

/// Having the supported schema version.
pub open spec fn version_stage(facts: OpenFactsView) -> Option<OpenStageView> {
    match facts.version {
        None => Some(OpenStageView::Needs(OpenStep::ReadVersion)),
        Some(Err(shown)) => backend_failure(shown),
        Some(Ok(stored)) => verdict_stage(schema_verdict(stored)),
    }
}

/// Having a readable store identity.
pub open spec fn identity_stage(facts: OpenFactsView) -> Option<OpenStageView> {
    match facts.identity {
        None => Some(OpenStageView::Needs(OpenStep::ReadIdentity)),
        Some(Err(shown)) => backend_failure(shown),
        Some(Ok(None)) => Some(
            OpenStageView::Failed(CatalogErrorView::Corruption("missing physical store identity"@)),
        ),
        Some(Ok(Some(Some(_)))) => None,
        Some(Ok(Some(None))) => Some(
            OpenStageView::Failed(
                CatalogErrorView::Corruption("malformed physical store identity"@),
            ),
        ),
    }
}

/// Having passed the physical integrity check.
pub open spec fn report_stage(facts: OpenFactsView) -> Option<OpenStageView> {
    match facts.report {
        None => Some(OpenStageView::Needs(OpenStep::CheckIntegrity)),
        Some(Err(shown)) => backend_failure(shown),
        Some(Ok(report)) => if report == "ok"@ {
            None
        } else {
            Some(
                OpenStageView::Failed(CatalogErrorView::Corruption("SQLite quick_check failed"@)),
            )
        },
    }
}

/// Having passed the integrity scan.
pub open spec fn scan_stage(facts: OpenFactsView) -> Option<OpenStageView> {
    match facts.scanned {
        None => Some(OpenStageView::Needs(OpenStep::Scan)),
        Some(verdict) => verdict_stage(verdict),
    }
}

/// Having the directory of the database.
pub open spec fn directory_stage(facts: OpenFactsView) -> Option<OpenStageView> {
    match facts.directory {
        None => Some(OpenStageView::Needs(OpenStep::CreateDirectory)),
        Some(true) => None,
        Some(false) => Some(
            OpenStageView::Failed(
                CatalogErrorView::Unavailable("catalog database directory could not be created"@),
            ),
        ),
    }
}

/// The first stage of opening the database that has not passed; none once all have.
pub open spec fn open_stage(facts: OpenFactsView, fresh: Seq<char>) -> Option<OpenStageView> {
    let stage = directory_stage(facts);
    let stage = first_open(stage, sqlite_stage(facts.opened, OpenStep::Open));
    let stage = first_open(stage, sqlite_stage(facts.foreign_keys, OpenStep::EnableForeignKeys));
    let stage = first_open(stage, sqlite_stage(facts.journal, OpenStep::EnableWriteAheadLog));
    let stage = first_open(stage, sqlite_stage(facts.synchronous, OpenStep::SetSynchronous));
    let stage = first_open(stage, sqlite_stage(facts.busy_timeout, OpenStep::SetBusyTimeout));
    let stage = first_open(stage, sqlite_stage(facts.schema, OpenStep::CreateSchema));
    let stage = first_open(stage, sqlite_stage(facts.version_ensured, OpenStep::EnsureVersion));
    let stage = first_open(stage, new_identity_stage(facts, fresh));
    let stage = first_open(stage, version_stage(facts));
    let stage = first_open(stage, identity_stage(facts));
    let stage = first_open(stage, report_stage(facts));
    let stage = first_open(stage, scan_stage(facts));
    stage
}

fn need_sqlite(fact: &Option<Result<(), String>>, step: OpenStep) -> (r: Option<OpenStage>)
    ensures
        stage_view(r) == sqlite_stage(plain_fact(*fact), step),
{
    match fact {
        None => Some(OpenStage::Needs(step)),
        Some(Ok(_)) => None,
        Some(Err(shown)) => fail_backend(shown),
    }
}

fn fail_backend(shown: &String) -> (r: Option<OpenStage>)
    ensures
        stage_view(r) == backend_failure(shown@),
{
    Some(OpenStage::Failed(CatalogStoreError::Backend { detail: shown.clone() }))
}

fn need_verdict(verdict: Result<(), CatalogStoreError>) -> (r: Option<OpenStage>)
    ensures
        stage_view(r) == verdict_stage(catalog_view(verdict)),
{
    match verdict {
        Ok(_) => None,
        Err(error) => Some(OpenStage::Failed(error)),
    }
}

fn need_new_identity(facts: &OpenFacts, fresh: &str) -> (r: Option<OpenStage>)
    ensures
        stage_view(r) == new_identity_stage(facts@, fresh@),
{
    match &facts.identity_present {
        None => Some(OpenStage::Needs(OpenStep::FindIdentity)),
        Some(Err(shown)) => fail_backend(shown),
        Some(Ok(present)) => if *present {
            None
        } else {
            match &facts.identity_created {
                None => Some(OpenStage::StoreIdentity(fresh.to_owned())),
                Some(Ok(_)) => None,
                Some(Err(shown)) => fail_backend(shown),
            }
        },
    }
}

fn need_version(facts: &OpenFacts) -> (r: Option<OpenStage>)
    ensures
        stage_view(r) == version_stage(facts@),
{
    match &facts.version {
        None => Some(OpenStage::Needs(OpenStep::ReadVersion)),
        Some(Err(shown)) => fail_backend(shown),
        Some(Ok(stored)) => need_verdict(check_schema_version(stored)),
    }
}

fn need_identity(facts: &OpenFacts) -> (r: Option<OpenStage>)
    ensures
        stage_view(r) == identity_stage(facts@),
{
    match &facts.identity {
        None => Some(OpenStage::Needs(OpenStep::ReadIdentity)),
        Some(Err(shown)) => fail_backend(shown),
        Some(Ok(None)) => need_verdict(check_physical_store_id(None)),
        Some(Ok(Some(identity))) => need_verdict(check_physical_store_id(Some(identity.is_some()))),
    }
}

fn need_report(facts: &OpenFacts) -> (r: Option<OpenStage>)
    ensures
        stage_view(r) == report_stage(facts@),
{
    match &facts.report {
        None => Some(OpenStage::Needs(OpenStep::CheckIntegrity)),
        Some(Err(shown)) => fail_backend(shown),
        Some(Ok(report)) => need_verdict(check_integrity_report(report.as_str())),
    }
}

fn need_scan(facts: &OpenFacts) -> (r: Option<OpenStage>)
    ensures
        stage_view(r) == scan_stage(facts@),
{
    match &facts.scanned {
        None => Some(OpenStage::Needs(OpenStep::Scan)),
        Some(Ok(_)) => None,
        Some(Err(error)) => Some(OpenStage::Failed(error.copy())),
    }
}

fn need_directory(facts: &OpenFacts) -> (r: Option<OpenStage>)
    ensures
        stage_view(r) == directory_stage(facts@),
{
    match facts.directory {
        None => Some(OpenStage::Needs(OpenStep::CreateDirectory)),
        Some(done) => if done {
            None
        } else {
            Some(
                OpenStage::Failed(unavailable("catalog database directory could not be created")),
            )
        },
    }
}

/// What opening the database does next, where `fresh` is the identity that a new catalog gets: once
/// all stages have passed, the identity is the one that is stored.
pub open spec fn opening(facts: OpenFactsView, fresh: Seq<char>) -> OpenStageView {
    match open_stage(facts, fresh) {
        Some(stage) => stage,
        None => OpenStageView::Opened(facts.identity->0->Ok_0->0->0),
    }
}

fn need_stage(facts: &OpenFacts, fresh: &str) -> (r: Option<OpenStage>)
    ensures
        stage_view(r) == open_stage(facts@, fresh@),
{
    let stage = need_directory(facts);
    if stage.is_some() {
        return stage;
    }
    let stage = need_sqlite(&facts.opened, OpenStep::Open);
    if stage.is_some() {
        return stage;
    }
    let stage = need_sqlite(&facts.foreign_keys, OpenStep::EnableForeignKeys);
    if stage.is_some() {
        return stage;
    }
    let stage = need_sqlite(&facts.journal, OpenStep::EnableWriteAheadLog);
    if stage.is_some() {
        return stage;
    }
    let stage = need_sqlite(&facts.synchronous, OpenStep::SetSynchronous);
    if stage.is_some() {
        return stage;
    }
    let stage = need_sqlite(&facts.busy_timeout, OpenStep::SetBusyTimeout);
    if stage.is_some() {
        return stage;
    }
    let stage = need_sqlite(&facts.schema, OpenStep::CreateSchema);
    if stage.is_some() {
        return stage;
    }
    let stage = need_sqlite(&facts.version_ensured, OpenStep::EnsureVersion);
    if stage.is_some() {
        return stage;
    }
    let stage = need_new_identity(facts, fresh);
    if stage.is_some() {
        return stage;
    }
    let stage = need_version(facts);
    if stage.is_some() {
        return stage;
    }
    let stage = need_identity(facts);
    if stage.is_some() {
        return stage;
    }
    let stage = need_report(facts);
    if stage.is_some() {
        return stage;
    }
    need_scan(facts)
}

/// Decides what opening the database does next, where `fresh` is the identity that a new catalog
/// gets.
///
/// A database of another schema, without a readable identity, or in which the integrity scan finds
/// anything wrong is not opened.
pub fn initialize_storage(facts: &OpenFacts, fresh: &str) -> (r: OpenStage)
    ensures
        r@ == opening(facts@, fresh@),
{
    match need_stage(facts, fresh) {
        Some(stage) => stage,
        None => {
            let identity = match &facts.identity {
                Some(Ok(Some(Some(stored)))) => stored.clone(),
                _ => fresh.to_owned(),
            };
            OpenStage::Opened(identity)
        },
    }
}

/// A catalog keeps its identity: it opens with the one that is stored, whatever fresh one is
/// offered, and is not given another where it has one.
pub proof fn law_reopened_catalog_keeps_its_identity(
    facts: OpenFactsView,
    fresh: Seq<char>,
    again: OpenFactsView,
    other: Seq<char>,
    identity: Seq<char>,
)
    requires
        opening(facts, fresh) == OpenStageView::Opened(identity),
        again.identity_present == Some(Ok::<bool, Seq<char>>(true)),
        again.identity == facts.identity,
    ensures
        facts.identity == Some(Ok::<Option<Option<Seq<char>>>, Seq<char>>(Some(Some(identity)))),
        !(opening(again, other) is StoreIdentity),
        opening(again, other) matches OpenStageView::Opened(found) ==> found == identity,
        opening(again, other) == opening(again, fresh),
{
}

/// A catalog is open only where its schema is the supported one and the integrity scan found
/// nothing wrong.
pub proof fn law_open_catalog_is_sound(facts: OpenFactsView, fresh: Seq<char>)
    requires
        opening(facts, fresh) is Opened,
    ensures
        facts.version matches Some(Ok(stored)) && schema_verdict(stored) is Ok,
        facts.scanned matches Some(Ok(_)),
{
}

/// A catalog is open exactly where every step of the opening was done: its schema is version 1, its
/// identity can be read, and a scan found nothing wrong. It has the identity that is
/// stored.
pub proof fn law_opening_is_complete(facts: OpenFactsView, fresh: Seq<char>, identity: Seq<char>)
    ensures
        opening(facts, fresh) == OpenStageView::Opened(identity) <==> {
            &&& facts.directory == Some(true)
            &&& (facts.opened matches Some(Ok(_)))
            &&& (facts.foreign_keys matches Some(Ok(_)))
            &&& (facts.journal matches Some(Ok(_)))
            &&& (facts.synchronous matches Some(Ok(_)))
            &&& (facts.busy_timeout matches Some(Ok(_)))
            &&& (facts.schema matches Some(Ok(_)))
            &&& (facts.version_ensured matches Some(Ok(_)))
            &&& (facts.identity_present matches Some(Ok(present)) && (!present ==> (
            facts.identity_created matches Some(Ok(_)))))
            &&& (facts.version matches Some(Ok(Some(text))) && signed_value(text) == Some(1int))
            &&& (facts.identity matches Some(Ok(Some(Some(_)))))
            &&& facts.report == Some(Ok::<Seq<char>, Seq<char>>("ok"@))
            &&& (facts.scanned matches Some(Ok(_)))
            &&& facts.identity
                == Some(Ok::<Option<Option<Seq<char>>>, Seq<char>>(Some(Some(identity))))
        },
{
    lemma_known(facts.directory);
}

/// The opening goes in order: a step is taken only where nothing is known of it yet and everything
/// before it was done, and nothing goes on after a failure.
pub proof fn law_opening_goes_in_order(facts: OpenFactsView, fresh: Seq<char>, step: OpenStep)
    requires
        opening(facts, fresh) == OpenStageView::Needs(step),
    ensures
        match step {
            OpenStep::CreateDirectory => {
                &&& facts.directory is None
            },
            OpenStep::Open => {
                &&& facts.directory == Some(true)
                &&& facts.opened is None
            },
            OpenStep::EnableForeignKeys => {
                &&& facts.directory == Some(true)
                &&& (facts.opened matches Some(Ok(_)))
                &&& facts.foreign_keys is None
            },
            OpenStep::EnableWriteAheadLog => {
                &&& facts.directory == Some(true)
                &&& (facts.opened matches Some(Ok(_)))
                &&& (facts.foreign_keys matches Some(Ok(_)))
                &&& facts.journal is None
            },
            OpenStep::SetSynchronous => {
                &&& facts.directory == Some(true)
                &&& (facts.opened matches Some(Ok(_)))
                &&& (facts.foreign_keys matches Some(Ok(_)))
                &&& (facts.journal matches Some(Ok(_)))
                &&& facts.synchronous is None
            },
            OpenStep::SetBusyTimeout => {
                &&& facts.directory == Some(true)
                &&& (facts.opened matches Some(Ok(_)))
                &&& (facts.foreign_keys matches Some(Ok(_)))
                &&& (facts.journal matches Some(Ok(_)))
                &&& (facts.synchronous matches Some(Ok(_)))
                &&& facts.busy_timeout is None
            },
            OpenStep::CreateSchema => {
                &&& facts.directory == Some(true)
                &&& (facts.opened matches Some(Ok(_)))
                &&& (facts.foreign_keys matches Some(Ok(_)))
                &&& (facts.journal matches Some(Ok(_)))
                &&& (facts.synchronous matches Some(Ok(_)))
                &&& (facts.busy_timeout matches Some(Ok(_)))
                &&& facts.schema is None
            },
            OpenStep::EnsureVersion => {
                &&& facts.directory == Some(true)
                &&& (facts.opened matches Some(Ok(_)))
                &&& (facts.foreign_keys matches Some(Ok(_)))
                &&& (facts.journal matches Some(Ok(_)))
                &&& (facts.synchronous matches Some(Ok(_)))
                &&& (facts.busy_timeout matches Some(Ok(_)))
                &&& (facts.schema matches Some(Ok(_)))
                &&& facts.version_ensured is None
            },
            OpenStep::FindIdentity => {
                &&& facts.directory == Some(true)
                &&& (facts.opened matches Some(Ok(_)))
                &&& (facts.foreign_keys matches Some(Ok(_)))
                &&& (facts.journal matches Some(Ok(_)))
                &&& (facts.synchronous matches Some(Ok(_)))
                &&& (facts.busy_timeout matches Some(Ok(_)))
                &&& (facts.schema matches Some(Ok(_)))
                &&& (facts.version_ensured matches Some(Ok(_)))
                &&& facts.identity_present is None
            },
            OpenStep::ReadVersion => {
                &&& facts.directory == Some(true)
                &&& (facts.opened matches Some(Ok(_)))
                &&& (facts.foreign_keys matches Some(Ok(_)))
                &&& (facts.journal matches Some(Ok(_)))
                &&& (facts.synchronous matches Some(Ok(_)))
                &&& (facts.busy_timeout matches Some(Ok(_)))
                &&& (facts.schema matches Some(Ok(_)))
                &&& (facts.version_ensured matches Some(Ok(_)))
                &&& (facts.identity_present matches Some(Ok(present)) && (!present ==> (
            facts.identity_created matches Some(Ok(_)))))
                &&& facts.version is None
            },
            OpenStep::ReadIdentity => {
                &&& facts.directory == Some(true)
                &&& (facts.opened matches Some(Ok(_)))
                &&& (facts.foreign_keys matches Some(Ok(_)))
                &&& (facts.journal matches Some(Ok(_)))
                &&& (facts.synchronous matches Some(Ok(_)))
                &&& (facts.busy_timeout matches Some(Ok(_)))
                &&& (facts.schema matches Some(Ok(_)))
                &&& (facts.version_ensured matches Some(Ok(_)))
                &&& (facts.identity_present matches Some(Ok(present)) && (!present ==> (
            facts.identity_created matches Some(Ok(_)))))
                &&& (facts.version matches Some(Ok(Some(text))) && signed_value(text) == Some(1int))
                &&& facts.identity is None
            },
            OpenStep::CheckIntegrity => {
                &&& facts.directory == Some(true)
                &&& (facts.opened matches Some(Ok(_)))
                &&& (facts.foreign_keys matches Some(Ok(_)))
                &&& (facts.journal matches Some(Ok(_)))
                &&& (facts.synchronous matches Some(Ok(_)))
                &&& (facts.busy_timeout matches Some(Ok(_)))
                &&& (facts.schema matches Some(Ok(_)))
                &&& (facts.version_ensured matches Some(Ok(_)))
                &&& (facts.identity_present matches Some(Ok(present)) && (!present ==> (
            facts.identity_created matches Some(Ok(_)))))
                &&& (facts.version matches Some(Ok(Some(text))) && signed_value(text) == Some(1int))
                &&& (facts.identity matches Some(Ok(Some(Some(_)))))
                &&& facts.report is None
            },
            OpenStep::Scan => {
                &&& facts.directory == Some(true)
                &&& (facts.opened matches Some(Ok(_)))
                &&& (facts.foreign_keys matches Some(Ok(_)))
                &&& (facts.journal matches Some(Ok(_)))
                &&& (facts.synchronous matches Some(Ok(_)))
                &&& (facts.busy_timeout matches Some(Ok(_)))
                &&& (facts.schema matches Some(Ok(_)))
                &&& (facts.version_ensured matches Some(Ok(_)))
                &&& (facts.identity_present matches Some(Ok(present)) && (!present ==> (
            facts.identity_created matches Some(Ok(_)))))
                &&& (facts.version matches Some(Ok(Some(text))) && signed_value(text) == Some(1int))
                &&& (facts.identity matches Some(Ok(Some(Some(_)))))
                &&& facts.report == Some(Ok::<Seq<char>, Seq<char>>("ok"@))
                &&& facts.scanned is None
            },
        },
{
    lemma_known(facts.directory);
}

/// A catalog is given the fresh identity, and only where it was looked for one and has none.
pub proof fn law_only_a_new_catalog_gets_an_identity(facts: OpenFactsView, fresh: Seq<char>)
    ensures
        opening(facts, fresh) matches OpenStageView::StoreIdentity(text) ==> text == fresh && (
        facts.identity_present matches Some(Ok(present)) && !present)
            && facts.identity_created is None,
{
}

/// An opening that would be complete but for one step that failed reports that step.
pub proof fn law_failed_steps_are_reported(
    facts: OpenFactsView,
    fresh: Seq<char>,
    shown: Seq<char>,
    error: CatalogErrorView,
)
    requires
        opening(facts, fresh) is Opened,
    ensures
        opening(OpenFactsView { directory: Some(false), ..facts }, fresh) == OpenStageView::Failed(
            CatalogErrorView::Unavailable("catalog database directory could not be created"@),
        ),
        opening(OpenFactsView { opened: Some(Err(shown)), ..facts }, fresh)
            == OpenStageView::Failed(CatalogErrorView::Backend(shown)),
        opening(OpenFactsView { foreign_keys: Some(Err(shown)), ..facts }, fresh)
            == OpenStageView::Failed(CatalogErrorView::Backend(shown)),
        opening(OpenFactsView { journal: Some(Err(shown)), ..facts }, fresh)
            == OpenStageView::Failed(CatalogErrorView::Backend(shown)),
        opening(OpenFactsView { synchronous: Some(Err(shown)), ..facts }, fresh)
            == OpenStageView::Failed(CatalogErrorView::Backend(shown)),
        opening(OpenFactsView { busy_timeout: Some(Err(shown)), ..facts }, fresh)
            == OpenStageView::Failed(CatalogErrorView::Backend(shown)),
        opening(OpenFactsView { schema: Some(Err(shown)), ..facts }, fresh)
            == OpenStageView::Failed(CatalogErrorView::Backend(shown)),
        opening(OpenFactsView { version_ensured: Some(Err(shown)), ..facts }, fresh)
            == OpenStageView::Failed(CatalogErrorView::Backend(shown)),
        opening(OpenFactsView { identity_present: Some(Err(shown)), ..facts }, fresh)
            == OpenStageView::Failed(CatalogErrorView::Backend(shown)),
        opening(OpenFactsView { version: Some(Err(shown)), ..facts }, fresh)
            == OpenStageView::Failed(CatalogErrorView::Backend(shown)),
        opening(OpenFactsView { identity: Some(Err(shown)), ..facts }, fresh)
            == OpenStageView::Failed(CatalogErrorView::Backend(shown)),
        opening(OpenFactsView { report: Some(Err(shown)), ..facts }, fresh)
            == OpenStageView::Failed(CatalogErrorView::Backend(shown)),
        opening(OpenFactsView { scanned: Some(Err(error)), ..facts }, fresh)
            == OpenStageView::Failed(error),
        opening(OpenFactsView { identity: Some(Ok(None)), ..facts }, fresh)
            == OpenStageView::Failed(
            CatalogErrorView::Corruption("missing physical store identity"@),
        ),
        opening(OpenFactsView { identity: Some(Ok(Some(None))), ..facts }, fresh)
            == OpenStageView::Failed(
            CatalogErrorView::Corruption("malformed physical store identity"@),
        ),
        shown != "ok"@ ==> opening(OpenFactsView { report: Some(Ok(shown)), ..facts }, fresh)
            == OpenStageView::Failed(CatalogErrorView::Corruption("SQLite quick_check failed"@)),
{
}

} // verus!
