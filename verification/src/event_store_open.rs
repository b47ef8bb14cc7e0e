//! Opening of the persistent EventStore.
//!
//! Opening is driven by asking [`initialize_connection`] again and again, each time with what came
//! of the step it named last, until it names the outcome.

use vstd::prelude::*;

use crate::event_store::{
    check_integrity_report, check_physical_store_id, check_schema_version, failure, is_sound_log,
    law_sound_log_is_contiguous_and_decodable, log_problem, map_sqlite_error, rows_view,
    schema_verdict, sqlite_failure, verify_all_events, MetadataStep, SqliteCode, StorageError,
    StorageErrorView, StoredRow, StoredRowView,
};
use crate::facts::lemma_known;
use crate::text::{optional_text, signed_value};

verus! {

/// The tables and indexes of the EventStore database.
pub const SCHEMA: &'static str = "
    CREATE TABLE IF NOT EXISTS storage_metadata (
        key TEXT PRIMARY KEY NOT NULL,
        value TEXT NOT NULL
    );
    CREATE TABLE IF NOT EXISTS events (
        append_sequence INTEGER PRIMARY KEY NOT NULL,
        event_id TEXT NOT NULL UNIQUE,
        session_id TEXT NOT NULL,
        actor_id TEXT NOT NULL,
        action_id TEXT NOT NULL,
        occurred_at_json TEXT NOT NULL,
        event_type TEXT NOT NULL,
        payload_json TEXT NOT NULL,
        metadata_json TEXT NOT NULL
    );
    CREATE INDEX IF NOT EXISTS events_session_type_sequence
        ON events (session_id, event_type, append_sequence);
    CREATE INDEX IF NOT EXISTS events_actor_sequence
        ON events (actor_id, append_sequence);
";

/// What came of opening the database so far.
#[derive(Debug)]
pub struct OpenFacts {
    /// Whether the directory of the database was created, if it has one.
    pub directory: Option<bool>,
    /// Whether the database was opened.
    pub opened: Option<Result<(), SqliteCode>>,
    /// Whether foreign keys were switched on.
    pub foreign_keys: Option<Result<(), SqliteCode>>,
    /// Whether write-ahead logging was switched on.
    pub journal: Option<Result<(), SqliteCode>>,
    /// Whether the synchronization level was set.
    pub synchronous: Option<Result<(), SqliteCode>>,
    /// Whether the busy timeout was set.
    pub busy_timeout: Option<Result<(), SqliteCode>>,
    /// Whether the tables were created where they were missing.
    pub schema: Option<Result<(), SqliteCode>>,
    /// The stored schema version.
    pub version: Option<Result<Option<String>, SqliteCode>>,
    /// Whether the schema version was stored.
    pub version_created: Option<Result<(), SqliteCode>>,
    /// The stored store identity, if there is one; none inside where the stored text is no identity.
    pub identity: Option<Result<Option<Option<String>>, SqliteCode>>,
    /// Whether the fresh store identity was stored.
    pub identity_created: Option<Result<(), SqliteCode>>,
    /// What the physical integrity check reported; none inside where it failed to run.
    pub report: Option<Option<String>>,
    /// The stored Events in sequence order, none for a row that could not be read.
    pub events: Option<Result<Vec<Option<StoredRow>>, SqliteCode>>,
}

/// The contents of [`OpenFacts`].
pub struct OpenFactsView {
    /// Whether the directory of the database was created, if it has one.
    pub directory: Option<bool>,
    /// Whether the database was opened.
    pub opened: Option<Result<(), SqliteCode>>,
    /// Whether foreign keys were switched on.
    pub foreign_keys: Option<Result<(), SqliteCode>>,
    /// Whether write-ahead logging was switched on.
    pub journal: Option<Result<(), SqliteCode>>,
    /// Whether the synchronization level was set.
    pub synchronous: Option<Result<(), SqliteCode>>,
    /// Whether the busy timeout was set.
    pub busy_timeout: Option<Result<(), SqliteCode>>,
    /// Whether the tables were created where they were missing.
    pub schema: Option<Result<(), SqliteCode>>,
    /// The stored schema version.
    pub version: Option<Result<Option<Seq<char>>, SqliteCode>>,
    /// Whether the schema version was stored.
    pub version_created: Option<Result<(), SqliteCode>>,
    /// The stored store identity, if there is one; none inside where the stored text is no identity.
    pub identity: Option<Result<Option<Option<Seq<char>>>, SqliteCode>>,
    /// Whether the fresh store identity was stored.
    pub identity_created: Option<Result<(), SqliteCode>>,
    /// What the physical integrity check reported; none inside where it failed to run.
    pub report: Option<Option<Seq<char>>>,
    /// The stored Events in sequence order, none for a row that could not be read.
    pub events: Option<Result<Seq<Option<StoredRowView>>, SqliteCode>>,
}

/// The contents of a metadata entry that was read.
pub open spec fn text_fact(fact: Option<Result<Option<String>, SqliteCode>>) -> Option<
    Result<Option<Seq<char>>, SqliteCode>,
> {
    match fact {
        None => None,
        Some(Ok(text)) => Some(Ok(optional_text(text))),
        Some(Err(code)) => Some(Err(code)),
    }
}

/// The contents of a store identity that was read.
pub open spec fn identity_fact(fact: Option<Result<Option<Option<String>>, SqliteCode>>) -> Option<
    Result<Option<Option<Seq<char>>>, SqliteCode>,
> {
    match fact {
        None => None,
        Some(Ok(None)) => Some(Ok(None)),
        Some(Ok(Some(text))) => Some(Ok(Some(optional_text(text)))),
        Some(Err(code)) => Some(Err(code)),
    }
}

/// The contents of a report.
pub open spec fn report_fact(fact: Option<Option<String>>) -> Option<Option<Seq<char>>> {
    match fact {
        None => None,
        Some(text) => Some(optional_text(text)),
    }
}

/// The contents of the stored Events.
pub open spec fn events_fact(fact: Option<Result<Vec<Option<StoredRow>>, SqliteCode>>) -> Option<
    Result<Seq<Option<StoredRowView>>, SqliteCode>,
> {
    match fact {
        None => None,
        Some(Ok(rows)) => Some(Ok(rows_view(rows@))),
        Some(Err(code)) => Some(Err(code)),
    }
}

impl View for OpenFacts {
    type V = OpenFactsView;

    open spec fn view(&self) -> OpenFactsView {
        OpenFactsView {
            directory: self.directory,
            opened: self.opened,
            foreign_keys: self.foreign_keys,
            journal: self.journal,
            synchronous: self.synchronous,
            busy_timeout: self.busy_timeout,
            schema: self.schema,
            version: text_fact(self.version),
            version_created: self.version_created,
            identity: identity_fact(self.identity),
            identity_created: self.identity_created,
            report: report_fact(self.report),
            events: events_fact(self.events),
        }
    }
}

impl OpenFacts {
    /// Creates the facts of an opening in which nothing was done yet.
    pub fn new() -> (r: OpenFacts)
        ensures
            r@ == (OpenFactsView {
                directory: None,
                opened: None,
                foreign_keys: None,
                journal: None,
                synchronous: None,
                busy_timeout: None,
                schema: None,
                version: None,
                version_created: None,
                identity: None,
                identity_created: None,
                report: None,
                events: None,
            }),
    {
        OpenFacts {
            directory: None,
            opened: None,
            foreign_keys: None,
            journal: None,
            synchronous: None,
            busy_timeout: None,
            schema: None,
            version: None,
            version_created: None,
            identity: None,
            identity_created: None,
            report: None,
            events: None,
        }
    }
}

/// A step of opening the database.
#[derive(Clone, Copy, Debug, PartialEq, Eq, Structural)]
pub enum OpenStep {
    /// Create the directory of the database, if it has one.
    CreateDirectory,
    /// Open the database.
    Open,
    /// Switch on foreign keys.
    EnableForeignKeys,
    /// Switch on write-ahead logging.
    EnableWriteAheadLog,
    /// Set the synchronization level.
    SetSynchronous,
    /// Set the busy timeout.
    SetBusyTimeout,
    /// Create the tables where they are missing.
    CreateSchema,
    /// Read the stored schema version.
    ReadVersion,
    /// Store the supported schema version.
    CreateVersion,
    /// Read the stored store identity.
    ReadIdentity,
    /// Run the physical integrity check.
    CheckIntegrity,
    /// Read all stored Events in sequence order.
    ReadEvents,
}

/// Where a stage of the opening stands, if it has not passed.
#[derive(Debug)]
pub enum OpenStage {
    /// The stage needs a step.
    Needs(OpenStep),
    /// The stage needs the text to be stored as the store identity.
    StoreIdentity(String),
    /// The stage failed.
    Failed(StorageError),
    /// All stages have passed: the store is open, and has the identity.
    Opened(String),
}

/// The contents of [`OpenStage`].
pub enum OpenStageView {
    /// The stage needs a step.
    Needs(OpenStep),
    /// The stage needs the text to be stored as the store identity.
    StoreIdentity(Seq<char>),
    /// The stage failed.
    Failed(StorageErrorView),
    /// All stages have passed: the store is open, and has the identity.
    Opened(Seq<char>),
}

impl View for OpenStage {
    type V = OpenStageView;

    open spec fn view(&self) -> OpenStageView {
        match *self {
            OpenStage::Needs(step) => OpenStageView::Needs(step),
            OpenStage::StoreIdentity(identity) => OpenStageView::StoreIdentity(identity@),
            OpenStage::Failed(error) => OpenStageView::Failed(error@),
            OpenStage::Opened(identity) => OpenStageView::Opened(identity@),
        }
    }
}

/// The contents of an optional stage.
pub open spec fn stage_view(stage: Option<OpenStage>) -> Option<OpenStageView> {
    match stage {
        None => None,
        Some(stage) => Some(stage@),
    }
}

/// The first stage that has not passed.
pub open spec fn first_open(first: Option<OpenStageView>, second: Option<OpenStageView>) -> Option<
    OpenStageView,
> {
    if first is Some {
        first
    } else {
        second
    }
}

/// A stage that is one operation of SQLite, which has to succeed.
pub open spec fn sqlite_stage(
    fact: Option<Result<(), SqliteCode>>,
    step: OpenStep,
    message: Seq<char>,
) -> Option<OpenStageView> {
    match fact {
        None => Some(OpenStageView::Needs(step)),
        Some(Ok(_)) => None,
        Some(Err(code)) => Some(OpenStageView::Failed(sqlite_failure(message, code))),
    }
}

fn need_sqlite(fact: Option<Result<(), SqliteCode>>, step: OpenStep, message: &str) -> (r: Option<
    OpenStage,
>)
    ensures
        stage_view(r) == sqlite_stage(fact, step, message@),
{
    match fact {
        None => Some(OpenStage::Needs(step)),
        Some(Ok(_)) => None,
        Some(Err(code)) => Some(OpenStage::Failed(map_sqlite_error(message, code))),
    }
}

/// Having the supported schema version: a new database gets it.
pub open spec fn version_stage(facts: OpenFactsView) -> Option<OpenStageView> {
    match facts.version {
        None => Some(OpenStageView::Needs(OpenStep::ReadVersion)),
        Some(Err(code)) => Some(
            OpenStageView::Failed(sqlite_failure("SQLite metadata read failed"@, code)),
        ),
        Some(Ok(stored)) => match schema_verdict(stored) {
            Err(error) => Some(OpenStageView::Failed(error)),
            Ok(MetadataStep::Keep) => None,
            Ok(MetadataStep::Create) => sqlite_stage(
                facts.version_created,
                OpenStep::CreateVersion,
                "SQLite schema metadata creation failed"@,
            ),
        },
    }
}

fn need_version(facts: &OpenFacts) -> (r: Option<OpenStage>)
    ensures
        stage_view(r) == version_stage(facts@),
{
    match &facts.version {
        None => Some(OpenStage::Needs(OpenStep::ReadVersion)),
        Some(Err(code)) => Some(
            OpenStage::Failed(map_sqlite_error("SQLite metadata read failed", *code)),
        ),
        Some(Ok(stored)) => match check_schema_version(stored) {
            Err(error) => Some(OpenStage::Failed(error)),
            Ok(MetadataStep::Keep) => None,
            Ok(MetadataStep::Create) => need_sqlite(
                facts.version_created,
                OpenStep::CreateVersion,
                "SQLite schema metadata creation failed",
            ),
        },
    }
}

/// Having a store identity: a new database gets the fresh one.
pub open spec fn identity_stage(facts: OpenFactsView, fresh: Seq<char>) -> Option<OpenStageView> {
    match facts.identity {
        None => Some(OpenStageView::Needs(OpenStep::ReadIdentity)),
        Some(Err(code)) => Some(
            OpenStageView::Failed(sqlite_failure("SQLite metadata read failed"@, code)),
        ),
        Some(Ok(None)) => match facts.identity_created {
            None => Some(OpenStageView::StoreIdentity(fresh)),
            Some(Ok(_)) => None,
            Some(Err(code)) => Some(
                OpenStageView::Failed(
                    sqlite_failure("SQLite physical store identity creation failed"@, code),
                ),
            ),
        },
        Some(Ok(Some(Some(_)))) => None,
        Some(Ok(Some(None))) => Some(
            OpenStageView::Failed(
                StorageErrorView::BackendFailure("SQLite physical store identity is malformed"@),
            ),
        ),
    }
}

/// The identity of a store that is open: the stored one, and the fresh one where none was stored.
pub open spec fn identity_of(facts: OpenFactsView, fresh: Seq<char>) -> Seq<char> {
    match facts.identity {
        Some(Ok(Some(Some(stored)))) => stored,
        _ => fresh,
    }
}

fn need_identity(facts: &OpenFacts, fresh: &str) -> (r: Option<OpenStage>)
    ensures
        stage_view(r) == identity_stage(facts@, fresh@),
{
    let stored: Option<bool> = match &facts.identity {
        None => {
            return Some(OpenStage::Needs(OpenStep::ReadIdentity));
        },
        Some(Err(code)) => {
            return Some(
                OpenStage::Failed(map_sqlite_error("SQLite metadata read failed", *code)),
            );
        },
        Some(Ok(None)) => None,
        Some(Ok(Some(identity))) => Some(identity.is_some()),
    };
    match check_physical_store_id(stored) {
        Err(error) => Some(OpenStage::Failed(error)),
        Ok(MetadataStep::Keep) => None,
        Ok(MetadataStep::Create) => match facts.identity_created {
            None => Some(OpenStage::StoreIdentity(fresh.to_owned())),
            Some(Ok(_)) => None,
            Some(Err(code)) => Some(
                OpenStage::Failed(
                    map_sqlite_error("SQLite physical store identity creation failed", code),
                ),
            ),
        },
    }
}

fn opened_identity(facts: &OpenFacts, fresh: &str) -> (r: String)
    ensures
        r@ == identity_of(facts@, fresh@),
{
    match &facts.identity {
        Some(Ok(Some(Some(stored)))) => stored.clone(),
        _ => fresh.to_owned(),
    }
}

/// Having passed the physical integrity check.
pub open spec fn report_stage(facts: OpenFactsView) -> Option<OpenStageView> {
    match facts.report {
        None => Some(OpenStageView::Needs(OpenStep::CheckIntegrity)),
        Some(report) => if report == Some("ok"@) {
            None
        } else {
            Some(OpenStageView::Failed(
                StorageErrorView::BackendFailure("SQLite physical integrity check failed"@),
            ))
        },
    }
}

fn need_report(facts: &OpenFacts) -> (r: Option<OpenStage>)
    ensures
        stage_view(r) == report_stage(facts@),
{
    match &facts.report {
        None => Some(OpenStage::Needs(OpenStep::CheckIntegrity)),
        Some(report) => match check_integrity_report(report) {
            Ok(_) => None,
            Err(error) => Some(OpenStage::Failed(error)),
        },
    }
}

/// A stage that is one operation on the filesystem, which has to succeed.
pub open spec fn filesystem_stage(fact: Option<bool>, step: OpenStep, message: Seq<char>) -> Option<
    OpenStageView,
> {
    match fact {
        None => Some(OpenStageView::Needs(step)),
        Some(true) => None,
        Some(false) => Some(OpenStageView::Failed(StorageErrorView::BackendFailure(message))),
    }
}

fn need_filesystem(fact: Option<bool>, step: OpenStep, message: &str) -> (r: Option<OpenStage>)
    ensures
        stage_view(r) == filesystem_stage(fact, step, message@),
{
    match fact {
        None => Some(OpenStage::Needs(step)),
        Some(done) => if done {
            None
        } else {
            Some(OpenStage::Failed(failure(message)))
        },
    }
}

/// Having verified the whole stored log.
pub open spec fn events_stage(facts: OpenFactsView) -> Option<OpenStageView> {
    match facts.events {
        None => Some(OpenStageView::Needs(OpenStep::ReadEvents)),
        Some(Err(code)) => Some(
            OpenStageView::Failed(
                sqlite_failure("SQLite EventStore integrity query failed"@, code),
            ),
        ),
        Some(Ok(rows)) => match log_problem(rows, 0) {
            None => None,
            Some(message) => Some(
                OpenStageView::Failed(StorageErrorView::BackendFailure(message)),
            ),
        },
    }
}

fn need_events(facts: &OpenFacts) -> (r: Option<OpenStage>)
    ensures
        stage_view(r) == events_stage(facts@),
{
    match &facts.events {
        None => Some(OpenStage::Needs(OpenStep::ReadEvents)),
        Some(Err(code)) => Some(
            OpenStage::Failed(map_sqlite_error("SQLite EventStore integrity query failed", *code)),
        ),
        Some(Ok(rows)) => match verify_all_events(rows.as_slice()) {
            Ok(_) => None,
            Err(error) => Some(OpenStage::Failed(error)),
        },
    }
}

/// The first stage of opening the database that has not passed; none once all have.
pub open spec fn open_stage(facts: OpenFactsView, fresh: Seq<char>) -> Option<OpenStageView> {
    let stage = filesystem_stage(
        facts.directory,
        OpenStep::CreateDirectory,
        "SQLite database directory could not be created"@,
    );
    let stage = first_open(
        stage,
        sqlite_stage(
            facts.opened,
            OpenStep::Open,
            "SQLite database open failed"@,
        ),
    );
    let stage = first_open(
        stage,
        sqlite_stage(
            facts.foreign_keys,
            OpenStep::EnableForeignKeys,
            "SQLite foreign key configuration failed"@,
        ),
    );
    let stage = first_open(
        stage,
        sqlite_stage(
            facts.journal,
            OpenStep::EnableWriteAheadLog,
            "SQLite WAL configuration failed"@,
        ),
    );
    let stage = first_open(
        stage,
        sqlite_stage(
            facts.synchronous,
            OpenStep::SetSynchronous,
            "SQLite synchronous configuration failed"@,
        ),
    );
    let stage = first_open(
        stage,
        sqlite_stage(
            facts.busy_timeout,
            OpenStep::SetBusyTimeout,
            "SQLite busy timeout configuration failed"@,
        ),
    );
    let stage = first_open(
        stage,
        sqlite_stage(
            facts.schema,
            OpenStep::CreateSchema,
            "SQLite schema creation failed"@,
        ),
    );
    let stage = first_open(stage, version_stage(facts));
    let stage = first_open(stage, identity_stage(facts, fresh));
    let stage = first_open(stage, report_stage(facts));
    let stage = first_open(stage, events_stage(facts));
    stage
}

/// What opening the database does next, where `fresh` is the identity that a new store gets.
pub open spec fn opening(facts: OpenFactsView, fresh: Seq<char>) -> OpenStageView {
    match open_stage(facts, fresh) {
        Some(stage) => stage,
        None => OpenStageView::Opened(identity_of(facts, fresh)),
    }
}

fn need_stage(facts: &OpenFacts, fresh: &str) -> (r: Option<OpenStage>)
    ensures
        stage_view(r) == open_stage(facts@, fresh@),
{
    let stage = need_filesystem(
        facts.directory,
        OpenStep::CreateDirectory,
        "SQLite database directory could not be created",
    );
    if stage.is_some() {
        return stage;
    }
    let stage = need_sqlite(
        facts.opened,
        OpenStep::Open,
        "SQLite database open failed",
    );
    if stage.is_some() {
        return stage;
    }
    let stage = need_sqlite(
        facts.foreign_keys,
        OpenStep::EnableForeignKeys,
        "SQLite foreign key configuration failed",
    );
    if stage.is_some() {
        return stage;
    }
    let stage = need_sqlite(
        facts.journal,
        OpenStep::EnableWriteAheadLog,
        "SQLite WAL configuration failed",
    );
    if stage.is_some() {
        return stage;
    }
    let stage = need_sqlite(
        facts.synchronous,
        OpenStep::SetSynchronous,
        "SQLite synchronous configuration failed",
    );
    if stage.is_some() {
        return stage;
    }
    let stage = need_sqlite(
        facts.busy_timeout,
        OpenStep::SetBusyTimeout,
        "SQLite busy timeout configuration failed",
    );
    if stage.is_some() {
        return stage;
    }
    let stage = need_sqlite(
        facts.schema,
        OpenStep::CreateSchema,
        "SQLite schema creation failed",
    );
    if stage.is_some() {
        return stage;
    }
    let stage = need_version(facts);
    if stage.is_some() {
        return stage;
    }
    let stage = need_identity(facts, fresh);
    if stage.is_some() {
        return stage;
    }
    let stage = need_report(facts);
    if stage.is_some() {
        return stage;
    }
    need_events(facts)
}

/// Decides what opening the database does next, where `fresh` is the identity that a new store
/// gets.
///
/// A database of another schema, without a readable identity, or with a log that is not contiguous
/// and decodable is not opened.
pub fn initialize_connection(facts: &OpenFacts, fresh: &str) -> (r: OpenStage)
    ensures
        r@ == opening(facts@, fresh@),
{
    match need_stage(facts, fresh) {
        Some(stage) => stage,
        None => OpenStage::Opened(opened_identity(facts, fresh)),
    }
}

/// A store keeps its identity: one whose identity is stored opens with that one, whatever fresh one
/// is offered, and is never given another; a new one opens with the very identity that it was made
/// to store, and with it again ever after.
pub proof fn law_reopened_store_keeps_its_identity(
    facts: OpenFactsView,
    fresh: Seq<char>,
    again: OpenFactsView,
    other: Seq<char>,
    identity: Seq<char>,
)
    requires
        opening(facts, fresh) == OpenStageView::Opened(identity),
        again.identity == Some(Ok::<Option<Option<Seq<char>>>, SqliteCode>(Some(Some(identity)))),
    ensures
        facts.identity matches Some(Ok(None)) ==> identity == fresh,
        facts.identity matches Some(Ok(Some(stored))) ==> stored == Some(identity),
        !(opening(again, other) is StoreIdentity),
        opening(again, other) matches OpenStageView::Opened(found) ==> found == identity,
        opening(again, other) == opening(again, fresh),
{
}

/// A store is open only where its log was read and every row of it has the sequence number of its
/// place and can be decoded.
pub proof fn law_open_store_has_a_verified_log(facts: OpenFactsView, fresh: Seq<char>)
    requires
        opening(facts, fresh) is Opened,
    ensures
        facts.report == Some(Some("ok"@)),
        facts.events matches Some(Ok(rows)) && log_problem(rows, 0) is None && is_sound_log(rows, 0),
{
    let rows = facts.events->0->Ok_0;
    law_sound_log_is_contiguous_and_decodable(rows, 0);
}

/// A store is open exactly where every step of the opening was done: its schema is version 1, its
/// identity can be read, and its log is contiguous and decodable. It has the identity that is
/// stored, and the fresh one only where none was.
pub proof fn law_opening_is_complete(facts: OpenFactsView, fresh: Seq<char>, identity: Seq<char>)
    ensures
        opening(facts, fresh) == OpenStageView::Opened(identity) <==> {
            &&& facts.directory == Some(true)
            &&& (facts.opened matches Some(Ok(_)))
            &&& (facts.foreign_keys matches Some(Ok(_)))
            &&& (facts.journal matches Some(Ok(_)))
            &&& (facts.synchronous matches Some(Ok(_)))
            &&& (facts.busy_timeout matches Some(Ok(_)))
            &&& (facts.schema matches Some(Ok(_)))
            &&& (facts.version matches Some(Ok(stored)) && (stored matches Some(text)
                ==> signed_value(text)
                == Some(1int)) && (stored is None ==> (facts.version_created matches Some(Ok(_)))))
            &&& (facts.identity matches Some(Ok(stored)) && match stored {
                None => facts.identity_created matches Some(Ok(_)),
                Some(text) => text is Some,
            })
            &&& facts.report == Some(Some("ok"@))
            &&& (facts.events matches Some(Ok(rows)) && log_problem(rows, 0) is None)
            &&& identity == match facts.identity {
                Some(Ok(Some(Some(stored)))) => stored,
                _ => fresh,
            }
        },
{
    lemma_known(facts.directory);
}

/// The opening goes in order: a step is taken only where nothing is known of it yet and everything
/// before it was done, and nothing goes on after a failure.
pub proof fn law_opening_goes_in_order(facts: OpenFactsView, fresh: Seq<char>, step: OpenStep)
    requires
        opening(facts, fresh) == OpenStageView::Needs(step),
    ensures
        match step {
            OpenStep::CreateDirectory => {
                &&& facts.directory is None
            },
            OpenStep::Open => {
                &&& facts.directory == Some(true)
                &&& facts.opened is None
            },
            OpenStep::EnableForeignKeys => {
                &&& facts.directory == Some(true)
                &&& (facts.opened matches Some(Ok(_)))
                &&& facts.foreign_keys is None
            },
            OpenStep::EnableWriteAheadLog => {
                &&& facts.directory == Some(true)
                &&& (facts.opened matches Some(Ok(_)))
                &&& (facts.foreign_keys matches Some(Ok(_)))
                &&& facts.journal is None
            },
            OpenStep::SetSynchronous => {
                &&& facts.directory == Some(true)
                &&& (facts.opened matches Some(Ok(_)))
                &&& (facts.foreign_keys matches Some(Ok(_)))
                &&& (facts.journal matches Some(Ok(_)))
                &&& facts.synchronous is None
            },
            OpenStep::SetBusyTimeout => {
                &&& facts.directory == Some(true)
                &&& (facts.opened matches Some(Ok(_)))
                &&& (facts.foreign_keys matches Some(Ok(_)))
                &&& (facts.journal matches Some(Ok(_)))
                &&& (facts.synchronous matches Some(Ok(_)))
                &&& facts.busy_timeout is None
            },
            OpenStep::CreateSchema => {
                &&& facts.directory == Some(true)
                &&& (facts.opened matches Some(Ok(_)))
                &&& (facts.foreign_keys matches Some(Ok(_)))
                &&& (facts.journal matches Some(Ok(_)))
                &&& (facts.synchronous matches Some(Ok(_)))
                &&& (facts.busy_timeout matches Some(Ok(_)))
                &&& facts.schema is None
            },
            OpenStep::ReadVersion => {
                &&& facts.directory == Some(true)
                &&& (facts.opened matches Some(Ok(_)))
                &&& (facts.foreign_keys matches Some(Ok(_)))
                &&& (facts.journal matches Some(Ok(_)))
                &&& (facts.synchronous matches Some(Ok(_)))
                &&& (facts.busy_timeout matches Some(Ok(_)))
                &&& (facts.schema matches Some(Ok(_)))
                &&& facts.version is None
            },
            OpenStep::ReadIdentity => {
                &&& facts.directory == Some(true)
                &&& (facts.opened matches Some(Ok(_)))
                &&& (facts.foreign_keys matches Some(Ok(_)))
                &&& (facts.journal matches Some(Ok(_)))
                &&& (facts.synchronous matches Some(Ok(_)))
                &&& (facts.busy_timeout matches Some(Ok(_)))
                &&& (facts.schema matches Some(Ok(_)))
                &&& (facts.version matches Some(Ok(stored)) && (stored matches Some(text)
                    ==> signed_value(text)
                == Some(1int)) && (stored is None ==> (facts.version_created matches Some(Ok(_)))))
                &&& facts.identity is None
            },
            OpenStep::CheckIntegrity => {
                &&& facts.directory == Some(true)
                &&& (facts.opened matches Some(Ok(_)))
                &&& (facts.foreign_keys matches Some(Ok(_)))
                &&& (facts.journal matches Some(Ok(_)))
                &&& (facts.synchronous matches Some(Ok(_)))
                &&& (facts.busy_timeout matches Some(Ok(_)))
                &&& (facts.schema matches Some(Ok(_)))
                &&& (facts.version matches Some(Ok(stored)) && (stored matches Some(text)
                    ==> signed_value(text)
                == Some(1int)) && (stored is None ==> (facts.version_created matches Some(Ok(_)))))
                &&& (facts.identity matches Some(Ok(stored)) && match stored {
                None => facts.identity_created matches Some(Ok(_)),
                Some(text) => text is Some,
            })
                &&& facts.report is None
            },
            OpenStep::ReadEvents => {
                &&& facts.directory == Some(true)
                &&& (facts.opened matches Some(Ok(_)))
                &&& (facts.foreign_keys matches Some(Ok(_)))
                &&& (facts.journal matches Some(Ok(_)))
                &&& (facts.synchronous matches Some(Ok(_)))
                &&& (facts.busy_timeout matches Some(Ok(_)))
                &&& (facts.schema matches Some(Ok(_)))
                &&& (facts.version matches Some(Ok(stored)) && (stored matches Some(text)
                    ==> signed_value(text)
                == Some(1int)) && (stored is None ==> (facts.version_created matches Some(Ok(_)))))
                &&& (facts.identity matches Some(Ok(stored)) && match stored {
                None => facts.identity_created matches Some(Ok(_)),
                Some(text) => text is Some,
            })
                &&& facts.report == Some(Some("ok"@))
                &&& facts.events is None
            },
            OpenStep::CreateVersion => {
                &&& (facts.version matches Some(Ok(stored)) && stored is None)
                &&& facts.version_created is None
                &&& (facts.schema matches Some(Ok(_)))
            },
        },
{
    lemma_known(facts.directory);
}

/// A store is given the fresh identity, and only where it was looked for one and has none.
pub proof fn law_only_a_new_store_gets_an_identity(facts: OpenFactsView, fresh: Seq<char>)
    ensures
        opening(facts, fresh) matches OpenStageView::StoreIdentity(text) ==> text == fresh && (
        facts.identity matches Some(Ok(stored)) && stored is None)
            && facts.identity_created is None,
{
}

/// An opening that would be complete but for one step that failed reports that step.
pub proof fn law_failed_steps_are_reported(
    facts: OpenFactsView,
    fresh: Seq<char>,
)
    requires
        opening(facts, fresh) is Opened,
    ensures
        opening(OpenFactsView { directory: Some(false), ..facts }, fresh) == OpenStageView::Failed(
            StorageErrorView::BackendFailure("SQLite database directory could not be created"@),
        ),
        opening(
            OpenFactsView { opened: Some(Err(SqliteCode::Other)), ..facts },
            fresh,
        ) == OpenStageView::Failed(StorageErrorView::BackendFailure("SQLite database open failed"@)),
        opening(
            OpenFactsView { foreign_keys: Some(Err(SqliteCode::Other)), ..facts },
            fresh,
        ) == OpenStageView::Failed(StorageErrorView::BackendFailure("SQLite foreign key configuration failed"@)),
        opening(
            OpenFactsView { journal: Some(Err(SqliteCode::Other)), ..facts },
            fresh,
        ) == OpenStageView::Failed(StorageErrorView::BackendFailure("SQLite WAL configuration failed"@)),
        opening(
            OpenFactsView { synchronous: Some(Err(SqliteCode::Other)), ..facts },
            fresh,
        ) == OpenStageView::Failed(StorageErrorView::BackendFailure("SQLite synchronous configuration failed"@)),
        opening(
            OpenFactsView { busy_timeout: Some(Err(SqliteCode::Other)), ..facts },
            fresh,
        ) == OpenStageView::Failed(StorageErrorView::BackendFailure("SQLite busy timeout configuration failed"@)),
        opening(
            OpenFactsView { events: Some(Err(SqliteCode::Other)), ..facts },
            fresh,
        ) == OpenStageView::Failed(StorageErrorView::BackendFailure("SQLite EventStore integrity query failed"@)),
        opening(
            OpenFactsView { version: Some(Err(SqliteCode::Other)), ..facts },
            fresh,
        ) == OpenStageView::Failed(StorageErrorView::BackendFailure("SQLite metadata read failed"@)),
        opening(
            OpenFactsView { identity: Some(Err(SqliteCode::Other)), ..facts },
            fresh,
        ) == OpenStageView::Failed(StorageErrorView::BackendFailure("SQLite metadata read failed"@)),
        opening(OpenFactsView { identity: Some(Ok(Some(None))), ..facts }, fresh)
            == OpenStageView::Failed(
            StorageErrorView::BackendFailure("SQLite physical store identity is malformed"@),
        ),
        opening(OpenFactsView { report: Some(None), ..facts }, fresh) == OpenStageView::Failed(
            StorageErrorView::BackendFailure("SQLite physical integrity check failed"@),
        ),
{
}

} // verus!
