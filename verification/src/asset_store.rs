//! Decisions of the persistent local Asset store: its metadata rows and its errors.
//!
//! An Asset is staged first, and becomes visible when its row is published. A published row is
//! never changed.

use vstd::prelude::*;

use crate::event_store::{MetadataStep, SendFault, SqliteCode};
use crate::text::{
    chars_of, decimal, decimal_text, optional_text, parse_signed, same_text, signed_value,
};

verus! {

/// The first metadata schema supported by this adapter.
pub const SUPPORTED_SCHEMA_VERSION: i64 = 1;

/// Default bounded metadata worker queue capacity.
pub const DEFAULT_COMMAND_QUEUE_CAPACITY: usize = 256;

/// The publication state of a row whose Asset is not visible yet.
pub const STAGED: &'static str = "staged";

/// The publication state of a row whose Asset is visible.
pub const PUBLISHED: &'static str = "published";

/// What the name of a blob file ends with.
pub const BLOB_SUFFIX: &'static str = ".blob";

/// Errors produced by local persistent Asset ingest and lifecycle operations.
#[derive(Debug, PartialEq, Eq)]
#[non_exhaustive]
#[allow(inconsistent_fields)]
pub enum LocalAssetStoreError {
    /// The configured queue capacity is invalid.
    InvalidQueueCapacity,
    /// The Asset length cannot be represented by the metadata backend.
    LengthOverflow {
        /// The affected Asset identity.
        asset_id: String,
        /// The supplied byte length.
        length: u64,
    },
    /// The descriptor length differs from the streamed bytes.
    LengthMismatch {
        /// The affected Asset identity.
        asset_id: String,
        /// The descriptor length.
        expected: u64,
        /// The streamed length.
        actual: u64,
    },
    /// The descriptor hash differs from the streamed bytes.
    HashMismatch {
        /// The affected Asset identity.
        asset_id: String,
        /// The descriptor hash.
        expected: String,
        /// The calculated hash.
        actual: String,
    },
    /// The identity already exists with different immutable content.
    AssetConflict {
        /// The conflicting Asset identity.
        asset_id: String,
    },
    /// A previous staged ingest is still present in the metadata store.
    AssetInProgress {
        /// The affected Asset identity.
        asset_id: String,
    },
    /// The metadata worker or database is temporarily unavailable.
    BackendUnavailable {
        /// A safe backend-neutral detail.
        detail: &'static str,
    },
    /// The metadata backend failed or contains invalid authoritative data.
    BackendFailure {
        /// A safe backend-neutral detail.
        detail: &'static str,
    },
    /// Filesystem storage failed at a safe, path-free boundary.
    Filesystem {
        /// A safe detail that never contains an absolute path.
        detail: &'static str,
    },
    /// Persistent metadata or blob state is corrupt.
    Corruption {
        /// A safe corruption detail.
        detail: &'static str,
    },
}

/// What an Asset store error says.
pub enum AssetStoreErrorView {
    /// The configured queue capacity is invalid.
    InvalidQueueCapacity,
    /// The Asset and its length.
    LengthOverflow(Seq<char>, int),
    /// The Asset, the expected and the actual length.
    LengthMismatch(Seq<char>, int, int),
    /// The Asset, the expected and the actual hash.
    HashMismatch(Seq<char>, Seq<char>, Seq<char>),
    /// The Asset.
    AssetConflict(Seq<char>),
    /// The Asset.
    AssetInProgress(Seq<char>),
    /// A safe detail.
    BackendUnavailable(Seq<char>),
    /// A safe detail.
    BackendFailure(Seq<char>),
    /// A safe detail.
    Filesystem(Seq<char>),
    /// A safe detail.
    Corruption(Seq<char>),
}

impl View for LocalAssetStoreError {
    type V = AssetStoreErrorView;

    open spec fn view(&self) -> AssetStoreErrorView {
        match *self {
            LocalAssetStoreError::InvalidQueueCapacity => AssetStoreErrorView::InvalidQueueCapacity,
            LocalAssetStoreError::LengthOverflow { asset_id, length } =>
            AssetStoreErrorView::LengthOverflow(asset_id@, length as int),
            LocalAssetStoreError::LengthMismatch { asset_id, expected, actual } =>
            AssetStoreErrorView::LengthMismatch(asset_id@, expected as int, actual as int),
            LocalAssetStoreError::HashMismatch { asset_id, expected, actual } =>
            AssetStoreErrorView::HashMismatch(asset_id@, expected@, actual@),
            LocalAssetStoreError::AssetConflict { asset_id } => AssetStoreErrorView::AssetConflict(
                asset_id@,
            ),
            LocalAssetStoreError::AssetInProgress { asset_id } =>
            AssetStoreErrorView::AssetInProgress(asset_id@),
            LocalAssetStoreError::BackendUnavailable { detail } =>
            AssetStoreErrorView::BackendUnavailable(detail@),
            LocalAssetStoreError::BackendFailure { detail } =>
            AssetStoreErrorView::BackendFailure(detail@),
            LocalAssetStoreError::Filesystem { detail } => AssetStoreErrorView::Filesystem(
                detail@,
            ),
            LocalAssetStoreError::Corruption { detail } => AssetStoreErrorView::Corruption(
                detail@,
            ),
        }
    }
}

impl AssetStoreErrorView {
    /// What may be told about the error: no identity, no path and no number.
    pub open spec fn safe_detail(self) -> Seq<char> {
        match self {
            AssetStoreErrorView::InvalidQueueCapacity => "invalid Asset metadata configuration"@,
            AssetStoreErrorView::LengthOverflow(_, _) => "Asset length overflow"@,
            AssetStoreErrorView::LengthMismatch(_, _, _) => "Asset length mismatch"@,
            AssetStoreErrorView::HashMismatch(_, _, _) => "Asset content hash mismatch"@,
            AssetStoreErrorView::AssetConflict(_) => "Asset identity conflict"@,
            AssetStoreErrorView::AssetInProgress(_) => "Asset ingest is in progress"@,
            AssetStoreErrorView::BackendUnavailable(detail) => detail,
            AssetStoreErrorView::BackendFailure(detail) => detail,
            AssetStoreErrorView::Filesystem(detail) => detail,
            AssetStoreErrorView::Corruption(detail) => detail,
        }
    }

    /// The error in words.
    pub open spec fn shown(self) -> Seq<char> {
        match self {
            AssetStoreErrorView::InvalidQueueCapacity =>
            "asset metadata command queue capacity must be greater than zero"@,
            AssetStoreErrorView::LengthOverflow(asset_id, length) => "asset "@ + asset_id
                + " length "@ + decimal(length) + " cannot be represented by SQLite"@,
            AssetStoreErrorView::LengthMismatch(asset_id, expected, actual) => "asset "@ + asset_id
                + " length mismatch: expected "@ + decimal(expected) + ", actual "@ + decimal(
                actual,
            ),
            AssetStoreErrorView::HashMismatch(asset_id, _, _) => "asset "@ + asset_id
                + " content hash mismatch"@,
            AssetStoreErrorView::AssetConflict(asset_id) => "asset "@ + asset_id
                + " conflicts with immutable existing content"@,
            AssetStoreErrorView::AssetInProgress(asset_id) => "asset "@ + asset_id
                + " has an unfinished ingest"@,
            AssetStoreErrorView::BackendUnavailable(detail) =>
            "asset metadata backend unavailable: "@ + detail,
            AssetStoreErrorView::BackendFailure(detail) => "asset metadata backend failure: "@
                + detail,
            AssetStoreErrorView::Filesystem(detail) => "asset filesystem operation failed: "@
                + detail,
            AssetStoreErrorView::Corruption(detail) => "asset persistence corruption: "@ + detail,
        }
    }
}

impl LocalAssetStoreError {
    /// Returns what may be told about the error: no identity, no path and no number.
    pub fn safe_detail(&self) -> (r: &'static str)
        ensures
            r@ == self@.safe_detail(),
    {
        match self {
            LocalAssetStoreError::InvalidQueueCapacity => "invalid Asset metadata configuration",
            LocalAssetStoreError::LengthOverflow { .. } => "Asset length overflow",
            LocalAssetStoreError::LengthMismatch { .. } => "Asset length mismatch",
            LocalAssetStoreError::HashMismatch { .. } => "Asset content hash mismatch",
            LocalAssetStoreError::AssetConflict { .. } => "Asset identity conflict",
            LocalAssetStoreError::AssetInProgress { .. } => "Asset ingest is in progress",
            LocalAssetStoreError::BackendUnavailable { detail } => detail,
            LocalAssetStoreError::BackendFailure { detail } => detail,
            LocalAssetStoreError::Filesystem { detail } => detail,
            LocalAssetStoreError::Corruption { detail } => detail,
        }
    }

    /// Returns the error in words.
    pub fn message(&self) -> (r: String)
        ensures
            r@ == self@.shown(),
    {
        match self {
            LocalAssetStoreError::InvalidQueueCapacity =>
            "asset metadata command queue capacity must be greater than zero".to_owned(),
            LocalAssetStoreError::LengthOverflow { asset_id, length } => "asset ".to_owned().concat(
                asset_id.as_str(),
            ).concat(" length ").concat(decimal_text(*length).as_str()).concat(
                " cannot be represented by SQLite",
            ),
            LocalAssetStoreError::LengthMismatch { asset_id, expected, actual } =>
            "asset ".to_owned().concat(asset_id.as_str()).concat(" length mismatch: expected ").concat(
                decimal_text(*expected).as_str(),
            ).concat(", actual ").concat(decimal_text(*actual).as_str()),
            LocalAssetStoreError::HashMismatch { asset_id, expected: _, actual: _ } =>
            "asset ".to_owned().concat(asset_id.as_str()).concat(" content hash mismatch"),
            LocalAssetStoreError::AssetConflict { asset_id } => "asset ".to_owned().concat(
                asset_id.as_str(),
            ).concat(" conflicts with immutable existing content"),
            LocalAssetStoreError::AssetInProgress { asset_id } => "asset ".to_owned().concat(
                asset_id.as_str(),
            ).concat(" has an unfinished ingest"),
            LocalAssetStoreError::BackendUnavailable { detail } =>
            "asset metadata backend unavailable: ".to_owned().concat(detail),
            LocalAssetStoreError::BackendFailure { detail } =>
            "asset metadata backend failure: ".to_owned().concat(detail),
            LocalAssetStoreError::Filesystem { detail } =>
            "asset filesystem operation failed: ".to_owned().concat(detail),
            LocalAssetStoreError::Corruption { detail } =>
            "asset persistence corruption: ".to_owned().concat(detail),
        }
    }

    /// Returns a copy of the error.
    pub fn copy(&self) -> (r: LocalAssetStoreError)
        ensures
            r@ == self@,
    {
        match self {
            LocalAssetStoreError::InvalidQueueCapacity => LocalAssetStoreError::InvalidQueueCapacity,
            LocalAssetStoreError::LengthOverflow { asset_id, length } =>
            LocalAssetStoreError::LengthOverflow { asset_id: asset_id.clone(), length: *length },
            LocalAssetStoreError::LengthMismatch { asset_id, expected, actual } =>
            LocalAssetStoreError::LengthMismatch {
                asset_id: asset_id.clone(),
                expected: *expected,
                actual: *actual,
            },
            LocalAssetStoreError::HashMismatch { asset_id, expected, actual } =>
            LocalAssetStoreError::HashMismatch {
                asset_id: asset_id.clone(),
                expected: expected.clone(),
                actual: actual.clone(),
            },
            LocalAssetStoreError::AssetConflict { asset_id } => LocalAssetStoreError::AssetConflict {
                asset_id: asset_id.clone(),
            },
            LocalAssetStoreError::AssetInProgress { asset_id } =>
            LocalAssetStoreError::AssetInProgress { asset_id: asset_id.clone() },
            LocalAssetStoreError::BackendUnavailable { detail } =>
            LocalAssetStoreError::BackendUnavailable { detail: *detail },
            LocalAssetStoreError::BackendFailure { detail } =>
            LocalAssetStoreError::BackendFailure { detail: *detail },
            LocalAssetStoreError::Filesystem { detail } => LocalAssetStoreError::Filesystem {
                detail: *detail,
            },
            LocalAssetStoreError::Corruption { detail } => LocalAssetStoreError::Corruption {
                detail: *detail,
            },
        }
    }
}

/// Returns the error of a backend that cannot be reached.
pub fn unavailable(detail: &'static str) -> (r: LocalAssetStoreError)
    ensures
        r@ == AssetStoreErrorView::BackendUnavailable(detail@),
{
    LocalAssetStoreError::BackendUnavailable { detail }
}

/// Returns the error of a filesystem operation.
pub fn filesystem(detail: &'static str) -> (r: LocalAssetStoreError)
    ensures
        r@ == AssetStoreErrorView::Filesystem(detail@),
{
    LocalAssetStoreError::Filesystem { detail }
}

/// Returns the error of corrupt persistent state.
pub fn corruption(detail: &'static str) -> (r: LocalAssetStoreError)
    ensures
        r@ == AssetStoreErrorView::Corruption(detail@),
{
    LocalAssetStoreError::Corruption { detail }
}

/// Maps the failure to queue a command.
pub fn map_send_error(fault: SendFault) -> (r: LocalAssetStoreError)
    ensures
        r@ == AssetStoreErrorView::BackendUnavailable(
            match fault {
                SendFault::Full => "Asset metadata command queue is full"@,
                SendFault::Closed => "Asset metadata worker is unavailable"@,
            },
        ),
{
    match fault {
        SendFault::Full => unavailable("Asset metadata command queue is full"),
        SendFault::Closed => unavailable("Asset metadata worker is unavailable"),
    }
}

/// The error of an operation of SQLite: contention is passing, anything else is a failure of the
/// operation.
pub open spec fn sqlite_failure(message: Seq<char>, code: SqliteCode) -> AssetStoreErrorView {
    if code == SqliteCode::Other {
        AssetStoreErrorView::BackendFailure(message)
    } else {
        AssetStoreErrorView::BackendUnavailable("Asset metadata SQLite backend is busy"@)
    }
}

/// Maps an error of SQLite.
pub fn map_sqlite_error(message: &'static str, code: SqliteCode) -> (r: LocalAssetStoreError)
    ensures
        r@ == sqlite_failure(message@, code),
{
    match code {
        SqliteCode::DatabaseBusy | SqliteCode::DatabaseLocked => unavailable(
            "Asset metadata SQLite backend is busy",
        ),
        SqliteCode::Other => LocalAssetStoreError::BackendFailure { detail: message },
    }
}

/// Maps the failure to move a blob into place, told whether the destination was taken.
pub fn map_filesystem_error(already_exists: bool) -> (r: LocalAssetStoreError)
    ensures
        r@ == AssetStoreErrorView::Filesystem(
            if already_exists {
                "Asset blob destination already exists"@
            } else {
                "Asset blob rename failed"@
            },
        ),
{
    if already_exists {
        filesystem("Asset blob destination already exists")
    } else {
        filesystem("Asset blob rename failed")
    }
}

/// Checks the size of the command queue before the worker starts.
pub fn check_queue_capacity(queue_capacity: usize) -> (r: Result<(), LocalAssetStoreError>)
    ensures
        match r {
            Ok(_) => queue_capacity > 0,
            Err(error) => queue_capacity == 0 && error@
                == AssetStoreErrorView::InvalidQueueCapacity,
        },
{
    if queue_capacity == 0 {
        return Err(LocalAssetStoreError::InvalidQueueCapacity);
    }
    Ok(())
}

/// The view of an Asset store result whose success is taken as it is.
pub open spec fn asset_store_view<T>(r: Result<T, LocalAssetStoreError>) -> Result<
    T,
    AssetStoreErrorView,
> {
    match r {
        Ok(value) => Ok(value),
        Err(error) => Err(error@),
    }
}

/// What the stored schema version means: a new database gets the supported one, and no other
/// version is opened.
pub open spec fn schema_verdict(stored: Option<Seq<char>>) -> Result<
    MetadataStep,
    AssetStoreErrorView,
> {
    match stored {
        None => Ok(MetadataStep::Create),
        Some(text) => match signed_value(text) {
            None => Err(
                AssetStoreErrorView::Corruption("Asset metadata schema version is malformed"@),
            ),
            Some(version) => if version > SUPPORTED_SCHEMA_VERSION {
                Err(
                    AssetStoreErrorView::Corruption(
                        "Asset metadata schema is newer than this adapter"@,
                    ),
                )
            } else if version < SUPPORTED_SCHEMA_VERSION {
                Err(AssetStoreErrorView::Corruption("Asset metadata schema migration is required"@))
            } else {
                Ok(MetadataStep::Keep)
            },
        },
    }
}

/// Checks the stored schema version.
pub fn check_schema_version(stored: &Option<String>) -> (r: Result<
    MetadataStep,
    LocalAssetStoreError,
>)
    ensures
        asset_store_view(r) == schema_verdict(optional_text(*stored)),
{
    match stored {
        None => Ok(MetadataStep::Create),
        Some(text) => {
            let value = chars_of(text.as_str());
            match parse_signed(value.as_slice()) {
                None => Err(corruption("Asset metadata schema version is malformed")),
                Some(version) => if version > SUPPORTED_SCHEMA_VERSION {
                    Err(corruption("Asset metadata schema is newer than this adapter"))
                } else if version < SUPPORTED_SCHEMA_VERSION {
                    Err(corruption("Asset metadata schema migration is required"))
                } else {
                    Ok(MetadataStep::Keep)
                },
            }
        },
    }
}

/// Checks the stored physical store identity: whether there is one, and whether it reads as an
/// identity.
pub fn check_physical_store_id(stored: Option<bool>) -> (r: Result<
    MetadataStep,
    LocalAssetStoreError,
>)
    ensures
        asset_store_view(r) == match stored {
            None => Ok::<MetadataStep, AssetStoreErrorView>(MetadataStep::Create),
            Some(true) => Ok(MetadataStep::Keep),
            Some(false) => Err(
                AssetStoreErrorView::Corruption("Asset physical store identity is malformed"@),
            ),
        },
{
    match stored {
        None => Ok(MetadataStep::Create),
        Some(readable) => if readable {
            Ok(MetadataStep::Keep)
        } else {
            Err(corruption("Asset physical store identity is malformed"))
        },
    }
}

/// Checks what the physical integrity check of the database reported; none where it failed to run.
pub fn check_integrity_report(report: &Option<String>) -> (r: Result<(), LocalAssetStoreError>)
    ensures
        asset_store_view(r) == if optional_text(*report) == Some("ok"@) {
            Ok::<(), AssetStoreErrorView>(())
        } else {
            Err(AssetStoreErrorView::Corruption("Asset SQLite physical integrity check failed"@))
        },
{
    match report {
        Some(text) => if same_text(text.as_str(), "ok") {
            Ok(())
        } else {
            Err(corruption("Asset SQLite physical integrity check failed"))
        },
        None => Err(corruption("Asset SQLite physical integrity check failed")),
    }
}

/// Whether an Asset is visible.
#[derive(Clone, Copy, Debug, PartialEq, Eq, Structural)]
pub enum PublicationState {
    /// The ingest of the Asset has not ended.
    Staged,
    /// The Asset is visible.
    Published,
}

/// The publication state that a stored text names.
pub open spec fn publication_state(text: Seq<char>) -> Option<PublicationState> {
    if text == STAGED@ {
        Some(PublicationState::Staged)
    } else if text == PUBLISHED@ {
        Some(PublicationState::Published)
    } else {
        None
    }
}

/// The text under which a publication state is stored.
pub open spec fn state_text(state: PublicationState) -> Seq<char> {
    match state {
        PublicationState::Staged => STAGED@,
        PublicationState::Published => PUBLISHED@,
    }
}

impl PublicationState {
    /// Reads a stored publication state.
    pub fn parse(value: &str) -> (r: Result<PublicationState, LocalAssetStoreError>)
        ensures
            match r {
                Ok(state) => publication_state(value@) == Some(state),
                Err(error) => publication_state(value@) is None && error@
                    == AssetStoreErrorView::Corruption("unknown Asset publication state"@),
            },
    {
        if same_text(value, STAGED) {
            Ok(PublicationState::Staged)
        } else if same_text(value, PUBLISHED) {
            Ok(PublicationState::Published)
        } else {
            Err(corruption("unknown Asset publication state"))
        }
    }
}

/// The immutable description of an Asset.
#[derive(Debug, PartialEq, Eq)]
pub struct AssetDescriptor {
    /// The Asset identifier.
    pub asset_id: String,
    /// The media type.
    pub media_type: String,
    /// The number of bytes.
    pub byte_length: u64,
    /// The content hash as text.
    pub content_hash: String,
    /// The name under which the Asset was supplied.
    pub original_filename: Option<String>,
}

/// The contents of [`AssetDescriptor`].
pub struct AssetDescriptorView {
    /// The Asset identifier.
    pub asset_id: Seq<char>,
    /// The media type.
    pub media_type: Seq<char>,
    /// The number of bytes.
    pub byte_length: int,
    /// The content hash as text.
    pub content_hash: Seq<char>,
    /// The name under which the Asset was supplied.
    pub original_filename: Option<Seq<char>>,
}

impl View for AssetDescriptor {
    type V = AssetDescriptorView;

    open spec fn view(&self) -> AssetDescriptorView {
        AssetDescriptorView {
            asset_id: self.asset_id@,
            media_type: self.media_type@,
            byte_length: self.byte_length as int,
            content_hash: self.content_hash@,
            original_filename: optional_text(self.original_filename),
        }
    }
}

/// Whether two optional texts are the same.
pub fn same_optional(a: &Option<String>, b: &Option<String>) -> (r: bool)
    ensures
        r == (optional_text(*a) == optional_text(*b)),
{
    match (a, b) {
        (Some(a), Some(b)) => same_text(a.as_str(), b.as_str()),
        (None, None) => true,
        _ => false,
    }
}

impl AssetDescriptor {
    /// Returns whether both descriptors are the same in every part.
    pub fn same(&self, other: &AssetDescriptor) -> (r: bool)
        ensures
            r == (self@ == other@),
    {
        same_text(self.asset_id.as_str(), other.asset_id.as_str()) && same_text(
            self.media_type.as_str(),
            other.media_type.as_str(),
        ) && self.byte_length == other.byte_length && same_text(
            self.content_hash.as_str(),
            other.content_hash.as_str(),
        ) && same_optional(&self.original_filename, &other.original_filename)
    }
}

/// The name of the blob file of an Asset.
pub open spec fn blob_name(asset_id: Seq<char>) -> Seq<char> {
    asset_id + BLOB_SUFFIX@
}

/// Returns the name of the blob file of an Asset.
pub fn blob_key(asset_id: &str) -> (r: String)
    ensures
        r@ == blob_name(asset_id@),
{
    asset_id.to_owned().concat(BLOB_SUFFIX)
}

/// A decoded row of the assets table.
#[derive(Debug, PartialEq, Eq)]
pub struct AssetRecord {
    /// The descriptor.
    pub descriptor: AssetDescriptor,
    /// The name of the blob file.
    pub blob_key: String,
    /// The publication state.
    pub state: PublicationState,
}

/// The contents of [`AssetRecord`].
pub struct AssetRecordView {
    /// The descriptor.
    pub descriptor: AssetDescriptorView,
    /// The name of the blob file.
    pub blob_key: Seq<char>,
    /// The publication state.
    pub state: PublicationState,
}

impl View for AssetRecord {
    type V = AssetRecordView;

    open spec fn view(&self) -> AssetRecordView {
        AssetRecordView {
            descriptor: self.descriptor@,
            blob_key: self.blob_key@,
            state: self.state,
        }
    }
}

/// The contents of an optional record.
pub open spec fn optional_record(record: Option<AssetRecord>) -> Option<AssetRecordView> {
    match record {
        Some(record) => Some(record@),
        None => None,
    }
}

/// A row of the assets table, with its texts as far as they can be read.
#[derive(Debug)]
pub struct RawAssetRow {
    /// The Asset identifier, if the stored text is one.
    pub asset_id: Option<String>,
    /// The media type.
    pub media_type: String,
    /// The number of bytes.
    pub byte_length: i64,
    /// The content hash, if the stored text is one.
    pub content_hash: Option<String>,
    /// The name under which the Asset was supplied.
    pub original_filename: Option<String>,
    /// The name of the blob file.
    pub blob_key: String,
    /// The publication state.
    pub publication_state: String,
    /// Whether the descriptor that the other columns make is accepted.
    pub accepted: bool,
}

/// The contents of [`RawAssetRow`].
pub struct RawAssetRowView {
    /// The Asset identifier, if the stored text is one.
    pub asset_id: Option<Seq<char>>,
    /// The media type.
    pub media_type: Seq<char>,
    /// The number of bytes.
    pub byte_length: int,
    /// The content hash, if the stored text is one.
    pub content_hash: Option<Seq<char>>,
    /// The name under which the Asset was supplied.
    pub original_filename: Option<Seq<char>>,
    /// The name of the blob file.
    pub blob_key: Seq<char>,
    /// The publication state.
    pub publication_state: Seq<char>,
    /// Whether the descriptor that the other columns make is accepted.
    pub accepted: bool,
}

impl View for RawAssetRow {
    type V = RawAssetRowView;

    open spec fn view(&self) -> RawAssetRowView {
        RawAssetRowView {
            asset_id: optional_text(self.asset_id),
            media_type: self.media_type@,
            byte_length: self.byte_length as int,
            content_hash: optional_text(self.content_hash),
            original_filename: optional_text(self.original_filename),
            blob_key: self.blob_key@,
            publication_state: self.publication_state@,
            accepted: self.accepted,
        }
    }
}

/// What is wrong with a row that cannot be decoded.
pub open spec fn asset_row_problem(row: RawAssetRowView) -> Option<Seq<char>> {
    if row.asset_id is None {
        Some("Asset metadata identity is invalid"@)
    } else if row.byte_length < 0 {
        Some("Asset metadata byte length is invalid"@)
    } else if row.content_hash is None {
        Some("Asset metadata content hash is invalid"@)
    } else if !row.accepted {
        Some("Asset metadata descriptor is invalid"@)
    } else if row.blob_key != blob_name(row.asset_id->0) {
        Some("Asset metadata blob key is invalid"@)
    } else if publication_state(row.publication_state) is None {
        Some("unknown Asset publication state"@)
    } else {
        None
    }
}

/// The record of a row that can be decoded.
pub open spec fn asset_row_record(row: RawAssetRowView) -> AssetRecordView {
    AssetRecordView {
        descriptor: AssetDescriptorView {
            asset_id: row.asset_id->0,
            media_type: row.media_type,
            byte_length: row.byte_length,
            content_hash: row.content_hash->0,
            original_filename: row.original_filename,
        },
        blob_key: row.blob_key,
        state: publication_state(row.publication_state)->0,
    }
}

/// Decodes a row. The name of the blob file has to be that of the Asset, whatever is stored.
pub fn decode_row(row: RawAssetRow) -> (r: Result<AssetRecord, LocalAssetStoreError>)
    ensures
        match r {
            Ok(record) => asset_row_problem(row@) is None && record@ == asset_row_record(row@),
            Err(error) => asset_row_problem(row@) is Some && error@
                == AssetStoreErrorView::Corruption(asset_row_problem(row@)->0),
        },
{
    let asset_id = match row.asset_id {
        Some(asset_id) => asset_id,
        None => {
            return Err(corruption("Asset metadata identity is invalid"));
        },
    };
    if row.byte_length < 0 {
        return Err(corruption("Asset metadata byte length is invalid"));
    }
    let content_hash = match row.content_hash {
        Some(content_hash) => content_hash,
        None => {
            return Err(corruption("Asset metadata content hash is invalid"));
        },
    };
    if !row.accepted {
        return Err(corruption("Asset metadata descriptor is invalid"));
    }
    let expected = blob_key(asset_id.as_str());
    if !same_text(row.blob_key.as_str(), expected.as_str()) {
        return Err(corruption("Asset metadata blob key is invalid"));
    }
    let state = match PublicationState::parse(row.publication_state.as_str()) {
        Ok(state) => state,
        Err(error) => {
            return Err(error);
        },
    };
    Ok(
        AssetRecord {
            descriptor: AssetDescriptor {
                asset_id,
                media_type: row.media_type,
                byte_length: row.byte_length as u64,
                content_hash,
                original_filename: row.original_filename,
            },
            blob_key: row.blob_key,
            state,
        },
    )
}

/// The contents of an optional row.
pub open spec fn optional_row(row: Option<RawAssetRow>) -> Option<RawAssetRowView> {
    match row {
        Some(row) => Some(row@),
        None => None,
    }
}

/// What looking up an Asset gives where `row` is stored under its identifier.
pub open spec fn lookup_verdict(row: Option<RawAssetRowView>) -> Result<
    Option<AssetRecordView>,
    AssetStoreErrorView,
> {
    match row {
        None => Ok(None),
        Some(row) => if asset_row_problem(row) is Some {
            Err(AssetStoreErrorView::Corruption(asset_row_problem(row)->0))
        } else {
            Ok(Some(asset_row_record(row)))
        },
    }
}

/// Returns the record of an Asset, from the row stored under its identifier.
pub fn lookup_asset(row: Option<RawAssetRow>) -> (r: Result<
    Option<AssetRecord>,
    LocalAssetStoreError,
>)
    ensures
        match r {
            Ok(record) => lookup_verdict(optional_row(row)) == Ok::<
                Option<AssetRecordView>,
                AssetStoreErrorView,
            >(optional_record(record)),
            Err(error) => lookup_verdict(optional_row(row)) == Err::<
                Option<AssetRecordView>,
                AssetStoreErrorView,
            >(error@),
        },
{
    match row {
        None => Ok(None),
        Some(row) => match decode_row(row) {
            Ok(record) => Ok(Some(record)),
            Err(error) => Err(error),
        },
    }
}

/// What an insertion did.
#[derive(Clone, Copy, Debug, PartialEq, Eq, Structural)]
pub enum AssetInsertOutcome {
    /// The Asset was inserted.
    Inserted,
    /// The very same Asset is published already.
    Existing,
}

/// What inserting an Asset means where `existing` is the record with its identifier: a published
/// Asset is immutable, and an unfinished ingest is not disturbed.
pub open spec fn insert_verdict(
    descriptor: AssetDescriptorView,
    existing: Option<AssetRecordView>,
) -> Result<AssetInsertOutcome, AssetStoreErrorView> {
    match existing {
        None => Ok(AssetInsertOutcome::Inserted),
        Some(record) => if record.state == PublicationState::Staged {
            Err(AssetStoreErrorView::AssetInProgress(descriptor.asset_id))
        } else if record.descriptor != descriptor {
            Err(AssetStoreErrorView::AssetConflict(descriptor.asset_id))
        } else {
            Ok(AssetInsertOutcome::Existing)
        },
    }
}

/// Decides what inserting an Asset means where `existing` is the record with its identifier.
pub fn check_existing(descriptor: &AssetDescriptor, existing: &Option<AssetRecord>) -> (r: Result<
    AssetInsertOutcome,
    LocalAssetStoreError,
>)
    ensures
        asset_store_view(r) == insert_verdict(descriptor@, optional_record(*existing)),
{
    match existing {
        None => Ok(AssetInsertOutcome::Inserted),
        Some(record) => match record.state {
            PublicationState::Staged => Err(
                LocalAssetStoreError::AssetInProgress { asset_id: descriptor.asset_id.clone() },
            ),
            PublicationState::Published => if record.descriptor.same(descriptor) {
                Ok(AssetInsertOutcome::Existing)
            } else {
                Err(LocalAssetStoreError::AssetConflict { asset_id: descriptor.asset_id.clone() })
            },
        },
    }
}

/// The row that holds an Asset.
pub open spec fn encoded_asset(
    descriptor: AssetDescriptorView,
    blob_key: Seq<char>,
    state: PublicationState,
) -> RawAssetRowView {
    RawAssetRowView {
        asset_id: Some(descriptor.asset_id),
        media_type: descriptor.media_type,
        byte_length: descriptor.byte_length,
        content_hash: Some(descriptor.content_hash),
        original_filename: descriptor.original_filename,
        blob_key,
        publication_state: state_text(state),
        accepted: true,
    }
}

/// What staging an Asset does.
#[derive(Debug)]
pub enum StageStep {
    /// The very same Asset is published already; nothing is written.
    Existing,
    /// The row is inserted.
    Insert(RawAssetRow),
}

/// What staging an Asset does where `row` is stored under its identifier.
pub open spec fn stage_verdict(
    descriptor: AssetDescriptorView,
    blob_key: Seq<char>,
    row: Option<RawAssetRowView>,
) -> Result<Option<RawAssetRowView>, AssetStoreErrorView> {
    match lookup_verdict(row) {
        Err(error) => Err(error),
        Ok(existing) => match insert_verdict(descriptor, existing) {
            Err(error) => Err(error),
            Ok(AssetInsertOutcome::Existing) => Ok(None),
            Ok(AssetInsertOutcome::Inserted) => if descriptor.byte_length > i64::MAX {
                Err(
                    AssetStoreErrorView::LengthOverflow(
                        descriptor.asset_id,
                        descriptor.byte_length,
                    ),
                )
            } else {
                Ok(Some(encoded_asset(descriptor, blob_key, PublicationState::Staged)))
            },
        },
    }
}

/// Decides what staging an Asset does, from the row stored under its identifier.
pub fn stage_asset(descriptor: &AssetDescriptor, blob_key: &str, row: Option<RawAssetRow>) -> (r:
    Result<StageStep, LocalAssetStoreError>)
    ensures
        match r {
            Ok(StageStep::Existing) => stage_verdict(descriptor@, blob_key@, optional_row(row))
                == Ok::<Option<RawAssetRowView>, AssetStoreErrorView>(None),
            Ok(StageStep::Insert(insert)) => stage_verdict(
                descriptor@,
                blob_key@,
                optional_row(row),
            ) == Ok::<Option<RawAssetRowView>, AssetStoreErrorView>(Some(insert@)),
            Err(error) => stage_verdict(descriptor@, blob_key@, optional_row(row)) == Err::<
                Option<RawAssetRowView>,
                AssetStoreErrorView,
            >(error@),
        },
{
    let existing = match lookup_asset(row) {
        Ok(existing) => existing,
        Err(error) => {
            return Err(error);
        },
    };
    match check_existing(descriptor, &existing) {
        Err(error) => {
            return Err(error);
        },
        Ok(AssetInsertOutcome::Existing) => {
            return Ok(StageStep::Existing);
        },
        Ok(AssetInsertOutcome::Inserted) => {},
    }
    if descriptor.byte_length > i64::MAX as u64 {
        return Err(
            LocalAssetStoreError::LengthOverflow {
                asset_id: descriptor.asset_id.clone(),
                length: descriptor.byte_length,
            },
        );
    }
    let original_filename = match &descriptor.original_filename {
        Some(name) => Some(name.clone()),
        None => None,
    };
    Ok(
        StageStep::Insert(
            RawAssetRow {
                asset_id: Some(descriptor.asset_id.clone()),
                media_type: descriptor.media_type.clone(),
                byte_length: descriptor.byte_length as i64,
                content_hash: Some(descriptor.content_hash.clone()),
                original_filename,
                blob_key: blob_key.to_owned(),
                publication_state: STAGED.to_owned(),
                accepted: true,
            },
        ),
    )
}

/// Whether a staged Asset may be published where `row` is stored under its identifier: the row has
/// to be the one that was staged.
pub open spec fn publish_verdict(
    descriptor: AssetDescriptorView,
    blob_key: Seq<char>,
    row: Option<RawAssetRowView>,
) -> Result<(), AssetStoreErrorView> {
    match lookup_verdict(row) {
        Err(error) => Err(error),
        Ok(None) => Err(
            AssetStoreErrorView::Corruption("Asset staged metadata disappeared before publish"@),
        ),
        Ok(Some(record)) => if record != (AssetRecordView {
            descriptor,
            blob_key,
            state: PublicationState::Staged,
        }) {
            Err(
                AssetStoreErrorView::Corruption("Asset publication metadata changed before publish"@),
            )
        } else {
            Ok(())
        },
    }
}

/// Decides whether a staged Asset may be published, from the row stored under its identifier.
pub fn publish_asset(descriptor: &AssetDescriptor, blob_key: &str, row: Option<RawAssetRow>) -> (r:
    Result<(), LocalAssetStoreError>)
    ensures
        asset_store_view(r) == publish_verdict(descriptor@, blob_key@, optional_row(row)),
{
    match lookup_asset(row) {
        Err(error) => Err(error),
        Ok(None) => Err(corruption("Asset staged metadata disappeared before publish")),
        Ok(Some(record)) => {
            let staged = match record.state {
                PublicationState::Staged => true,
                PublicationState::Published => false,
            };
            if !staged || !record.descriptor.same(descriptor) || !same_text(
                record.blob_key.as_str(),
                blob_key,
            ) {
                Err(corruption("Asset publication metadata changed before publish"))
            } else {
                Ok(())
            }
        },
    }
}

/// What the Asset catalog tells of a lookup: an Asset is visible once it is published.
pub open spec fn visible_asset(record: Option<AssetRecordView>) -> Option<AssetDescriptorView> {
    match record {
        Some(record) => if record.state == PublicationState::Published {
            Some(record.descriptor)
        } else {
            None
        },
        None => None,
    }
}

/// Returns what the Asset catalog tells of a lookup: the descriptor of a published Asset, or the
/// safe detail of a failed lookup.
pub fn get_asset(lookup: Result<Option<AssetRecord>, LocalAssetStoreError>) -> (r: Result<
    Option<AssetDescriptor>,
    String,
>)
    ensures
        match (lookup, r) {
            (Ok(record), Ok(Some(descriptor))) => visible_asset(optional_record(record)) == Some(
                descriptor@,
            ),
            (Ok(record), Ok(None)) => visible_asset(optional_record(record)) is None,
            (Err(error), Err(detail)) => detail@ == error@.safe_detail(),
            _ => false,
        },
{
    match lookup {
        Ok(Some(record)) => match record.state {
            PublicationState::Published => Ok(Some(record.descriptor)),
            PublicationState::Staged => Ok(None),
        },
        Ok(None) => Ok(None),
        Err(error) => Err(error.safe_detail().to_owned()),
    }
}

/// The names of the publication states differ.
proof fn lemma_state_texts(state: PublicationState)
    ensures
        publication_state(state_text(state)) == Some(state),
{
    reveal_strlit("staged");
    reveal_strlit("published");
    assert(STAGED@.len() != PUBLISHED@.len());
}

/// A staged Asset is stored as it was described and stays invisible; once its row is published, it
/// is visible and is read back exactly as it was described.
pub proof fn law_published_asset_is_read_back(descriptor: AssetDescriptorView)
    requires
        0 <= descriptor.byte_length <= i64::MAX,
    ensures
        ({
            let key = blob_name(descriptor.asset_id);
            let staged = encoded_asset(descriptor, key, PublicationState::Staged);
            let published = encoded_asset(descriptor, key, PublicationState::Published);
            &&& stage_verdict(descriptor, key, None) == Ok::<
                Option<RawAssetRowView>,
                AssetStoreErrorView,
            >(Some(staged))
            &&& lookup_verdict(Some(staged)) is Ok
            &&& visible_asset(lookup_verdict(Some(staged))->Ok_0) is None
            &&& publish_verdict(descriptor, key, Some(staged)) == Ok::<(), AssetStoreErrorView>(())
            &&& lookup_verdict(Some(published)) is Ok
            &&& visible_asset(lookup_verdict(Some(published))->Ok_0) == Some(descriptor)
        }),
{
    lemma_state_texts(PublicationState::Staged);
    lemma_state_texts(PublicationState::Published);
}

/// A published Asset is immutable: staging it again writes nothing, staging a different Asset under
/// its identifier is a conflict, and it cannot be published a second time.
pub proof fn law_published_asset_is_immutable(
    descriptor: AssetDescriptorView,
    other: AssetDescriptorView,
    key: Seq<char>,
)
    requires
        0 <= descriptor.byte_length <= i64::MAX,
        other.asset_id == descriptor.asset_id,
    ensures
        ({
            let row = encoded_asset(
                descriptor,
                blob_name(descriptor.asset_id),
                PublicationState::Published,
            );
            &&& stage_verdict(other, key, Some(row)) == if other == descriptor {
                Ok::<Option<RawAssetRowView>, AssetStoreErrorView>(None)
            } else {
                Err(AssetStoreErrorView::AssetConflict(descriptor.asset_id))
            }
            &&& publish_verdict(other, key, Some(row)) is Err
        }),
{
    lemma_state_texts(PublicationState::Published);
}

/// An unfinished ingest is not disturbed: no Asset can be staged under its identifier.
pub proof fn law_staged_asset_is_not_disturbed(
    descriptor: AssetDescriptorView,
    other: AssetDescriptorView,
    key: Seq<char>,
)
    requires
        0 <= descriptor.byte_length <= i64::MAX,
        other.asset_id == descriptor.asset_id,
    ensures
        stage_verdict(
            other,
            key,
            Some(
                encoded_asset(
                    descriptor,
                    blob_name(descriptor.asset_id),
                    PublicationState::Staged,
                ),
            ),
        ) == Err::<Option<RawAssetRowView>, AssetStoreErrorView>(
            AssetStoreErrorView::AssetInProgress(other.asset_id),
        ),
{
    lemma_state_texts(PublicationState::Staged);
}

/// An Asset row can be decoded exactly where its identifier and its content hash can be read, its
/// length is not negative, its descriptor is accepted, its blob is named after it, and its state is
/// one of the two; the record has what the columns say.
pub proof fn law_assets_are_what_their_columns_say(row: RawAssetRowView)
    ensures
        asset_row_problem(row) is None <==> {
            &&& row.asset_id is Some
            &&& row.byte_length >= 0
            &&& row.content_hash is Some
            &&& row.accepted
            &&& row.blob_key == row.asset_id->0 + ".blob"@
            &&& row.publication_state == "staged"@ || row.publication_state == "published"@
        },
        asset_row_problem(row) is None ==> {
            let record = asset_row_record(row);
            &&& Some(record.descriptor.asset_id) == row.asset_id
            &&& record.descriptor.media_type == row.media_type
            &&& record.descriptor.byte_length == row.byte_length
            &&& Some(record.descriptor.content_hash) == row.content_hash
            &&& record.descriptor.original_filename == row.original_filename
            &&& record.blob_key == row.blob_key
            &&& record.state == if row.publication_state == "staged"@ {
                PublicationState::Staged
            } else {
                PublicationState::Published
            }
        },
        lookup_verdict(None) == Ok::<Option<AssetRecordView>, AssetStoreErrorView>(None),
        asset_row_problem(row) is None ==> lookup_verdict(Some(row)) == Ok::<
            Option<AssetRecordView>,
            AssetStoreErrorView,
        >(Some(asset_row_record(row))),
        asset_row_problem(row) is Some ==> (lookup_verdict(Some(row)) matches Err(
            AssetStoreErrorView::Corruption(_),
        )),
{
    assert(STAGED@ == "staged"@);
    assert(PUBLISHED@ == "published"@);
    assert(BLOB_SUFFIX@ == ".blob"@);
}

/// What inserting an Asset means: a new one is inserted, the very same published one exists, one
/// whose ingest has not ended is in progress, and any other is a conflict.
pub proof fn law_inserting_compares_the_descriptors(
    descriptor: AssetDescriptorView,
    record: AssetRecordView,
)
    ensures
        insert_verdict(descriptor, None) == Ok::<AssetInsertOutcome, AssetStoreErrorView>(
            AssetInsertOutcome::Inserted,
        ),
        insert_verdict(descriptor, Some(record)) == if record.state == PublicationState::Staged {
            Err::<AssetInsertOutcome, AssetStoreErrorView>(
                AssetStoreErrorView::AssetInProgress(descriptor.asset_id),
            )
        } else if record.descriptor.asset_id == descriptor.asset_id && record.descriptor.media_type
            == descriptor.media_type && record.descriptor.byte_length == descriptor.byte_length
            && record.descriptor.content_hash == descriptor.content_hash
            && record.descriptor.original_filename == descriptor.original_filename {
            Ok(AssetInsertOutcome::Existing)
        } else {
            Err(AssetStoreErrorView::AssetConflict(descriptor.asset_id))
        },
        visible_asset(None) is None,
        visible_asset(Some(record)) == if record.state == PublicationState::Published {
            Some(record.descriptor)
        } else {
            None
        },
{
}

/// Staging writes the row of the Asset, marked as staged, exactly where nothing is stored under its
/// identifier and its length can be told; publishing goes through exactly where that very row is
/// still there.
pub proof fn law_staging_and_publishing(
    descriptor: AssetDescriptorView,
    row: RawAssetRowView,
    key: Seq<char>,
)
    ensures
        descriptor.byte_length <= i64::MAX ==> (stage_verdict(descriptor, key, None) matches Ok(
            Some(written),
        ) && written.asset_id == Some(descriptor.asset_id) && written.media_type
            == descriptor.media_type && written.byte_length == descriptor.byte_length
            && written.content_hash == Some(descriptor.content_hash) && written.original_filename
            == descriptor.original_filename && written.blob_key == key && written.publication_state
            == "staged"@),
        descriptor.byte_length > i64::MAX ==> stage_verdict(descriptor, key, None) == Err::<
            Option<RawAssetRowView>,
            AssetStoreErrorView,
        >(AssetStoreErrorView::LengthOverflow(descriptor.asset_id, descriptor.byte_length)),
        !(stage_verdict(descriptor, key, Some(row)) matches Ok(Some(_))),
        publish_verdict(descriptor, key, None) is Err,
        publish_verdict(descriptor, key, Some(row)) is Ok <==> asset_row_problem(row) is None
            && row.asset_id == Some(descriptor.asset_id) && row.media_type == descriptor.media_type
            && row.byte_length == descriptor.byte_length && row.content_hash == Some(
            descriptor.content_hash,
        ) && row.original_filename == descriptor.original_filename && row.blob_key == key
            && row.publication_state == "staged"@,
{
    assert(STAGED@ == "staged"@);
    assert(PUBLISHED@ == "published"@);
    law_assets_are_what_their_columns_say(row);
}

/// Only an Asset store of schema version 1, or a new one, is opened.
pub proof fn law_only_the_supported_schema_is_opened(version: int, text: Seq<char>)
    requires
        0 <= version,
    ensures
        schema_verdict(None) == Ok::<MetadataStep, AssetStoreErrorView>(MetadataStep::Create),
        schema_verdict(Some(decimal(version))) is Ok <==> version == 1,
        schema_verdict(Some(seq!['-'] + decimal(version))) is Err,
        schema_verdict(Some(text)) is Ok ==> signed_value(text) == Some(1int),
{
    crate::text::law_signed_numbers_are_decimal(version);
}

/// Contention is passing; anything else is a failure of the operation.
pub proof fn law_contention_is_passing(message: Seq<char>)
    ensures
        sqlite_failure(message, SqliteCode::DatabaseBusy) is BackendUnavailable,
        sqlite_failure(message, SqliteCode::DatabaseLocked) is BackendUnavailable,
        sqlite_failure(message, SqliteCode::Other) == AssetStoreErrorView::BackendFailure(message),
{
}

/// What may be told about an error does not depend on the Asset: neither its identifier, nor its
/// length, nor its content hash is in it.
pub proof fn law_safe_details_tell_nothing_of_the_asset(
    id: Seq<char>,
    other: Seq<char>,
    n: int,
    m: int,
    text: Seq<char>,
    hash: Seq<char>,
)
    ensures
        AssetStoreErrorView::LengthOverflow(id, n).safe_detail()
            == AssetStoreErrorView::LengthOverflow(other, m).safe_detail(),
        AssetStoreErrorView::LengthMismatch(id, n, m).safe_detail()
            == AssetStoreErrorView::LengthMismatch(other, m, n).safe_detail(),
        AssetStoreErrorView::HashMismatch(id, text, hash).safe_detail()
            == AssetStoreErrorView::HashMismatch(other, hash, text).safe_detail(),
        AssetStoreErrorView::AssetConflict(id).safe_detail() == AssetStoreErrorView::AssetConflict(
            other,
        ).safe_detail(),
        AssetStoreErrorView::AssetInProgress(id).safe_detail()
            == AssetStoreErrorView::AssetInProgress(other).safe_detail(),
        AssetStoreErrorView::Corruption(text).safe_detail() == text,
        AssetStoreErrorView::Filesystem(text).safe_detail() == text,
        AssetStoreErrorView::BackendFailure(text).safe_detail() == text,
        AssetStoreErrorView::BackendUnavailable(text).safe_detail() == text,
{
}

/// An Asset row with one defect is told by that defect.
pub proof fn law_defects_of_an_asset_row_are_named(row: RawAssetRowView, other: Seq<char>)
    requires
        asset_row_problem(row) is None,
    ensures
        asset_row_problem(RawAssetRowView { asset_id: None, ..row }) == Some(
            "Asset metadata identity is invalid"@,
        ),
        asset_row_problem(RawAssetRowView { byte_length: -1, ..row }) == Some(
            "Asset metadata byte length is invalid"@,
        ),
        asset_row_problem(RawAssetRowView { content_hash: None, ..row }) == Some(
            "Asset metadata content hash is invalid"@,
        ),
        asset_row_problem(RawAssetRowView { accepted: false, ..row }) == Some(
            "Asset metadata descriptor is invalid"@,
        ),
        other != row.blob_key ==> asset_row_problem(RawAssetRowView { blob_key: other, ..row })
            == Some("Asset metadata blob key is invalid"@),
        other != "staged"@ && other != "published"@ ==> asset_row_problem(
            RawAssetRowView { publication_state: other, ..row },
        ) == Some("unknown Asset publication state"@),
{
    law_assets_are_what_their_columns_say(row);
    assert(STAGED@ == "staged"@);
    assert(PUBLISHED@ == "published"@);
}

/// What may be told about an error that is about an Asset.
pub proof fn law_safe_details(
    id: Seq<char>,
    n: int,
    m: int,
    text: Seq<char>,
)
    ensures
        AssetStoreErrorView::InvalidQueueCapacity.safe_detail()
            == "invalid Asset metadata configuration"@,
        AssetStoreErrorView::LengthOverflow(id, n).safe_detail() == "Asset length overflow"@,
        AssetStoreErrorView::LengthMismatch(id, n, m).safe_detail() == "Asset length mismatch"@,
        AssetStoreErrorView::HashMismatch(id, text, text).safe_detail()
            == "Asset content hash mismatch"@,
        AssetStoreErrorView::AssetConflict(id).safe_detail() == "Asset identity conflict"@,
        AssetStoreErrorView::AssetInProgress(id).safe_detail() == "Asset ingest is in progress"@,
{
}

/// An optional row and an optional record show what they hold.
pub proof fn law_views_of_rows_and_records(row: RawAssetRow, record: AssetRecord)
    ensures
        optional_row(Some(row)) == Some(row@),
        optional_row(None) is None,
        optional_record(Some(record)) == Some(record@),
        optional_record(None) is None,
        row@.asset_id == optional_text(row.asset_id),
        row@.media_type == row.media_type@,
        row@.byte_length == row.byte_length,
        row@.content_hash == optional_text(row.content_hash),
        row@.original_filename == optional_text(row.original_filename),
        row@.blob_key == row.blob_key@,
        row@.publication_state == row.publication_state@,
        row@.accepted == row.accepted,
        record@.descriptor == record.descriptor@,
        record@.blob_key == record.blob_key@,
        record@.state == record.state,
        record.descriptor@.asset_id == record.descriptor.asset_id@,
        record.descriptor@.media_type == record.descriptor.media_type@,
        record.descriptor@.byte_length == record.descriptor.byte_length,
        record.descriptor@.content_hash == record.descriptor.content_hash@,
        record.descriptor@.original_filename == optional_text(record.descriptor.original_filename),
{
}

} // verus!
