//! Decisions of a range read from the persistent local Asset store.

use vstd::prelude::*;

use crate::asset_store::{
    optional_record, visible_asset, AssetRecord, AssetRecordView, AssetStoreErrorView,
    LocalAssetStoreError, PublicationState,
};

verus! {

/// A range of bytes of an Asset.
#[derive(Clone, Copy, Debug, PartialEq, Eq, Structural)]
pub struct AssetByteRange {
    /// The first byte.
    pub offset: u64,
    /// The number of bytes.
    pub length: u64,
}

/// Errors of a range read.
#[derive(Debug, PartialEq, Eq)]
pub enum AssetReadError {
    /// No such Asset is published.
    NotFound {
        /// The Asset identifier.
        asset_id: String,
    },
    /// The range begins behind the end of the Asset.
    RangeOutOfBounds {
        /// The Asset identifier.
        asset_id: String,
        /// The first byte of the range.
        offset: u64,
        /// The number of bytes of the Asset.
        total_length: u64,
    },
    /// The bytes could not be read.
    Unavailable {
        /// A safe detail.
        detail: String,
    },
}

/// What a read error says.
pub enum AssetReadErrorView {
    /// The Asset identifier.
    NotFound(Seq<char>),
    /// The Asset identifier, the first byte of the range and the number of bytes of the Asset.
    RangeOutOfBounds(Seq<char>, int, int),
    /// A safe detail.
    Unavailable(Seq<char>),
}

impl View for AssetReadError {
    type V = AssetReadErrorView;

    open spec fn view(&self) -> AssetReadErrorView {
        match *self {
            AssetReadError::NotFound { asset_id } => AssetReadErrorView::NotFound(asset_id@),
            AssetReadError::RangeOutOfBounds { asset_id, offset, total_length } =>
            AssetReadErrorView::RangeOutOfBounds(asset_id@, offset as int, total_length as int),
            AssetReadError::Unavailable { detail } => AssetReadErrorView::Unavailable(detail@),
        }
    }
}

/// What the place of a blob holds.
#[derive(Clone, Copy, Debug, PartialEq, Eq, Structural)]
pub enum BlobKind {
    /// It could not be inspected.
    Uninspected,
    /// Something else than a regular file.
    NotRegular,
    /// A regular file.
    Regular,
}

/// What is known so far of a range read: what came of each step that was taken.
#[derive(Debug)]
pub struct ReadFacts {
    /// The record stored under the identifier.
    pub lookup: Option<Result<Option<AssetRecord>, LocalAssetStoreError>>,
    /// What the place of the blob holds.
    pub inspected: Option<BlobKind>,
    /// Whether the blob was opened.
    pub opened: Option<bool>,
    /// Whether the first byte was found.
    pub sought: Option<bool>,
    /// Whether all bytes were read.
    pub read: Option<bool>,
    /// Whether the chunk was accepted as one of the Asset.
    pub chunk: Option<bool>,
}

/// The contents of [`ReadFacts`].
pub struct ReadFactsView {
    /// The record stored under the identifier.
    pub lookup: Option<Result<Option<AssetRecordView>, AssetStoreErrorView>>,
    /// What the place of the blob holds.
    pub inspected: Option<BlobKind>,
    /// Whether the blob was opened.
    pub opened: Option<bool>,
    /// Whether the first byte was found.
    pub sought: Option<bool>,
    /// Whether all bytes were read.
    pub read: Option<bool>,
    /// Whether the chunk was accepted as one of the Asset.
    pub chunk: Option<bool>,
}

impl View for ReadFacts {
    type V = ReadFactsView;

    open spec fn view(&self) -> ReadFactsView {
        ReadFactsView {
            lookup: match self.lookup {
                None => None,
                Some(Ok(record)) => Some(Ok(optional_record(record))),
                Some(Err(error)) => Some(Err(error@)),
            },
            inspected: self.inspected,
            opened: self.opened,
            sought: self.sought,
            read: self.read,
            chunk: self.chunk,
        }
    }
}

/// The facts of a read in which nothing was done yet.
pub open spec fn nothing_read() -> ReadFactsView {
    ReadFactsView {
        lookup: None,
        inspected: None,
        opened: None,
        sought: None,
        read: None,
        chunk: None,
    }
}

impl ReadFacts {
    /// Creates the facts of a read in which nothing was done yet.
    pub fn new() -> (r: ReadFacts)
        ensures
            r@ == nothing_read(),
    {
        ReadFacts {
            lookup: None,
            inspected: None,
            opened: None,
            sought: None,
            read: None,
            chunk: None,
        }
    }
}

/// What a range read does next.
#[derive(Debug, PartialEq, Eq)]
pub enum ReadDecision {
    /// Look up the record stored under the identifier.
    LookUp,
    /// Inspect what stands under the name among the blobs.
    Inspect(String),
    /// Open the blob.
    Open,
    /// Go to the byte.
    Seek(u64),
    /// Read that many bytes.
    Read(usize),
    /// Make the chunk of the bytes read, which begin at the offset of an Asset of that length.
    MakeChunk {
        /// The first byte.
        offset: u64,
        /// The number of bytes of the Asset.
        total_length: u64,
    },
    /// The chunk is the answer.
    Answer,
    /// The read fails.
    Fail(AssetReadError),
}

/// The contents of [`ReadDecision`].
pub enum ReadDecisionView {
    /// Look up the record stored under the identifier.
    LookUp,
    /// Inspect what stands under the name among the blobs.
    Inspect(Seq<char>),
    /// Open the blob.
    Open,
    /// Go to the byte.
    Seek(int),
    /// Read that many bytes.
    Read(int),
    /// Make the chunk at the offset of an Asset of that length.
    MakeChunk(int, int),
    /// The chunk is the answer.
    Answer,
    /// The read fails.
    Fail(AssetReadErrorView),
}

impl View for ReadDecision {
    type V = ReadDecisionView;

    open spec fn view(&self) -> ReadDecisionView {
        match *self {
            ReadDecision::LookUp => ReadDecisionView::LookUp,
            ReadDecision::Inspect(name) => ReadDecisionView::Inspect(name@),
            ReadDecision::Open => ReadDecisionView::Open,
            ReadDecision::Seek(offset) => ReadDecisionView::Seek(offset as int),
            ReadDecision::Read(length) => ReadDecisionView::Read(length as int),
            ReadDecision::MakeChunk { offset, total_length } => ReadDecisionView::MakeChunk(
                offset as int,
                total_length as int,
            ),
            ReadDecision::Answer => ReadDecisionView::Answer,
            ReadDecision::Fail(error) => ReadDecisionView::Fail(error@),
        }
    }
}

/// The number of bytes that a read of `range` gives of an Asset of `total` bytes: those of the
/// range that the Asset has.
pub open spec fn served_length(range: AssetByteRange, total: int) -> int {
    if range.offset + range.length <= total {
        range.length as int
    } else {
        total - range.offset
    }
}

/// A read that fails without telling more than a safe detail.
pub open spec fn read_failure(detail: Seq<char>) -> ReadDecisionView {
    ReadDecisionView::Fail(AssetReadErrorView::Unavailable(detail))
}

/// What a range read does with the record of a published Asset.
pub open spec fn read_published(
    asset_id: Seq<char>,
    range: AssetByteRange,
    record: AssetRecordView,
    facts: ReadFactsView,
) -> ReadDecisionView {
    let total = record.descriptor.byte_length;
    if range.offset > total {
        ReadDecisionView::Fail(
            AssetReadErrorView::RangeOutOfBounds(asset_id, range.offset as int, total),
        )
    } else {
        match facts.inspected {
            None => ReadDecisionView::Inspect(record.blob_key),
            Some(BlobKind::Uninspected) => read_failure(
                "published Asset blob could not be inspected"@,
            ),
            Some(BlobKind::NotRegular) => read_failure(
                "published Asset blob is not a regular file"@,
            ),
            Some(BlobKind::Regular) => match facts.opened {
                None => ReadDecisionView::Open,
                Some(false) => read_failure("published Asset blob could not be opened"@),
                Some(true) => if range.offset == total {
                    match facts.chunk {
                        None => ReadDecisionView::MakeChunk(range.offset as int, total),
                        Some(false) => read_failure(
                            "published Asset produced an invalid EOF chunk"@,
                        ),
                        Some(true) => ReadDecisionView::Answer,
                    }
                } else {
                    read_bytes(range, total, facts)
                },
            },
        }
    }
}

/// What a range read does with an open blob that has bytes of the range.
pub open spec fn read_bytes(range: AssetByteRange, total: int, facts: ReadFactsView) ->
    ReadDecisionView {
    if range.offset + range.length > u64::MAX {
        read_failure("Asset range overflowed unexpectedly"@)
    } else if served_length(range, total) > usize::MAX {
        read_failure("Asset range is too large for this platform"@)
    } else {
        match facts.sought {
            None => ReadDecisionView::Seek(range.offset as int),
            Some(false) => read_failure("published Asset seek failed"@),
            Some(true) => match facts.read {
                None => ReadDecisionView::Read(served_length(range, total)),
                Some(false) => read_failure("published Asset read was truncated"@),
                Some(true) => match facts.chunk {
                    None => ReadDecisionView::MakeChunk(range.offset as int, total),
                    Some(false) => read_failure("published Asset produced an invalid range chunk"@),
                    Some(true) => ReadDecisionView::Answer,
                },
            },
        }
    }
}

/// What a range read does next, from what came of the steps taken so far.
pub open spec fn read_decision(
    asset_id: Seq<char>,
    range: AssetByteRange,
    facts: ReadFactsView,
) -> ReadDecisionView {
    match facts.lookup {
        None => ReadDecisionView::LookUp,
        Some(Err(error)) => read_failure(error.safe_detail()),
        Some(Ok(record)) => if visible_asset(record) is None {
            ReadDecisionView::Fail(AssetReadErrorView::NotFound(asset_id))
        } else {
            read_published(asset_id, range, record->0, facts)
        },
    }
}

fn unreadable(detail: &str) -> (r: ReadDecision)
    ensures
        r@ == read_failure(detail@),
{
    ReadDecision::Fail(AssetReadError::Unavailable { detail: detail.to_owned() })
}

fn decide_bytes(range: AssetByteRange, total: u64, facts: &ReadFacts) -> (r: ReadDecision)
    requires
        range.offset < total,
    ensures
        r@ == read_bytes(range, total as int, facts@),
{
    let end: u64 = match range.offset.checked_add(range.length) {
        Some(end) => end,
        None => {
            return unreadable("Asset range overflowed unexpectedly");
        },
    };
    let actual_end: u64 = if end < total {
        end
    } else {
        total
    };
    let length: u64 = actual_end - range.offset;
    if length > usize::MAX as u64 {
        return unreadable("Asset range is too large for this platform");
    }
    match facts.sought {
        None => {
            return ReadDecision::Seek(range.offset);
        },
        Some(done) => if !done {
            return unreadable("published Asset seek failed");
        },
    }
    match facts.read {
        None => {
            return ReadDecision::Read(length as usize);
        },
        Some(done) => if !done {
            return unreadable("published Asset read was truncated");
        },
    }
    match facts.chunk {
        None => ReadDecision::MakeChunk { offset: range.offset, total_length: total },
        Some(accepted) => if accepted {
            ReadDecision::Answer
        } else {
            unreadable("published Asset produced an invalid range chunk")
        },
    }
}

fn decide_published(
    asset_id: &str,
    range: AssetByteRange,
    record: &AssetRecord,
    facts: &ReadFacts,
) -> (r: ReadDecision)
    ensures
        r@ == read_published(asset_id@, range, record@, facts@),
{
    let total: u64 = record.descriptor.byte_length;
    if range.offset > total {
        return ReadDecision::Fail(
            AssetReadError::RangeOutOfBounds {
                asset_id: asset_id.to_owned(),
                offset: range.offset,
                total_length: total,
            },
        );
    }
    match facts.inspected {
        None => {
            return ReadDecision::Inspect(record.blob_key.clone());
        },
        Some(BlobKind::Uninspected) => {
            return unreadable("published Asset blob could not be inspected");
        },
        Some(BlobKind::NotRegular) => {
            return unreadable("published Asset blob is not a regular file");
        },
        Some(BlobKind::Regular) => {},
    }
    match facts.opened {
        None => {
            return ReadDecision::Open;
        },
        Some(done) => if !done {
            return unreadable("published Asset blob could not be opened");
        },
    }
    if range.offset == total {
        return match facts.chunk {
            None => ReadDecision::MakeChunk { offset: range.offset, total_length: total },
            Some(accepted) => if accepted {
                ReadDecision::Answer
            } else {
                unreadable("published Asset produced an invalid EOF chunk")
            },
        };
    }
    decide_bytes(range, total, facts)
}

/// Decides what a range read does next, from what came of the steps taken so far.
///
/// Only a published Asset is read. A range that ends behind the Asset is cut to it, a range that
/// begins right at its end gives no bytes, and one that begins behind it is an error.
pub fn read_range(asset_id: &str, range: AssetByteRange, facts: &ReadFacts) -> (r: ReadDecision)
    ensures
        r@ == read_decision(asset_id@, range, facts@),
{
    match &facts.lookup {
        None => ReadDecision::LookUp,
        Some(Err(error)) => unreadable(error.safe_detail()),
        Some(Ok(None)) => ReadDecision::Fail(
            AssetReadError::NotFound { asset_id: asset_id.to_owned() },
        ),
        Some(Ok(Some(record))) => match record.state {
            PublicationState::Staged => ReadDecision::Fail(
                AssetReadError::NotFound { asset_id: asset_id.to_owned() },
            ),
            PublicationState::Published => decide_published(asset_id, range, record, facts),
        },
    }
}

/// An Asset that is not published is not found, whatever stands among the blobs: nothing of it is
/// inspected, opened or read.
pub proof fn law_staged_assets_are_not_read(
    asset_id: Seq<char>,
    range: AssetByteRange,
    facts: ReadFactsView,
    record: Option<AssetRecordView>,
)
    requires
        facts.lookup == Some(Ok::<Option<AssetRecordView>, AssetStoreErrorView>(record)),
        visible_asset(record) is None,
    ensures
        read_decision(asset_id, range, facts) == ReadDecisionView::Fail(
            AssetReadErrorView::NotFound(asset_id),
        ),
{
}

/// What is read lies inside the Asset and inside the range: it begins at the first byte of the
/// range, and ends with the range or with the Asset, whichever comes first.
pub proof fn law_read_bytes_lie_inside_the_asset(
    asset_id: Seq<char>,
    range: AssetByteRange,
    facts: ReadFactsView,
    record: AssetRecordView,
)
    requires
        facts.lookup == Some(Ok::<Option<AssetRecordView>, AssetStoreErrorView>(Some(record))),
    ensures
        read_decision(asset_id, range, facts) matches ReadDecisionView::Read(length) ==> 0 <= length
            <= range.length && range.offset + length <= record.descriptor.byte_length && (length
            == range.length || range.offset + length == record.descriptor.byte_length),
        read_decision(asset_id, range, facts) matches ReadDecisionView::Seek(offset) ==> offset
            == range.offset,
        read_decision(asset_id, range, facts) matches ReadDecisionView::MakeChunk(
            offset,
            total,
        ) ==> offset == range.offset && total == record.descriptor.byte_length,
{
}

/// A range read goes in order: the record is looked up, the blob of the Asset is inspected and
/// opened, the first byte of the range is sought, and exactly the bytes of the range that the Asset
/// has are read, as one chunk at the first byte, of an Asset of that length. A range that begins
/// behind the Asset is refused, and one that begins right at its end is answered without reading.
pub proof fn law_reads_go_in_order(
    asset_id: Seq<char>,
    range: AssetByteRange,
    facts: ReadFactsView,
    record: AssetRecordView,
)
    requires
        facts.lookup == Some(Ok::<Option<AssetRecordView>, AssetStoreErrorView>(Some(record))),
        record.state == PublicationState::Published,
    ensures
        ({
            let total = record.descriptor.byte_length;
            let next = read_decision(asset_id, range, facts);
            let fits = range.offset + range.length <= u64::MAX && (if range.offset + range.length
                <= total {
                range.length as int
            } else {
                total - range.offset
            }) <= usize::MAX;
            &&& range.offset > total ==> next == ReadDecisionView::Fail(
                AssetReadErrorView::RangeOutOfBounds(asset_id, range.offset as int, total),
            )
            &&& range.offset <= total ==> {
                &&& facts.inspected is None ==> next == ReadDecisionView::Inspect(record.blob_key)
                &&& (facts.inspected == Some(BlobKind::Uninspected) || facts.inspected == Some(
                    BlobKind::NotRegular,
                )) ==> (next matches ReadDecisionView::Fail(AssetReadErrorView::Unavailable(_)))
                &&& facts.inspected == Some(BlobKind::Regular) ==> {
                    &&& facts.opened is None ==> next is Open
                    &&& facts.opened == Some(false) ==> (next matches ReadDecisionView::Fail(
                        AssetReadErrorView::Unavailable(_),
                    ))
                    &&& facts.opened == Some(true) && range.offset == total ==> {
                        &&& facts.chunk is None ==> next == ReadDecisionView::MakeChunk(
                            range.offset as int,
                            total,
                        )
                        &&& facts.chunk == Some(true) ==> next is Answer
                        &&& facts.chunk == Some(false) ==> (next matches ReadDecisionView::Fail(
                            AssetReadErrorView::Unavailable(_),
                        ))
                    }
                    &&& facts.opened == Some(true) && range.offset < total && !fits ==> (
                    next matches ReadDecisionView::Fail(AssetReadErrorView::Unavailable(_)))
                    &&& facts.opened == Some(true) && range.offset < total && fits ==> {
                        &&& facts.sought is None ==> next == ReadDecisionView::Seek(
                            range.offset as int,
                        )
                        &&& facts.sought == Some(false) ==> (next matches ReadDecisionView::Fail(
                            AssetReadErrorView::Unavailable(_),
                        ))
                        &&& facts.sought == Some(true) && facts.read is None ==> next
                            == ReadDecisionView::Read(
                            if range.offset + range.length <= total {
                                range.length as int
                            } else {
                                total - range.offset
                            },
                        )
                        &&& facts.sought == Some(true) && facts.read == Some(false) ==> (
                        next matches ReadDecisionView::Fail(AssetReadErrorView::Unavailable(_)))
                        &&& facts.sought == Some(true) && facts.read == Some(true) ==> {
                            &&& facts.chunk is None ==> next == ReadDecisionView::MakeChunk(
                                range.offset as int,
                                total,
                            )
                            &&& facts.chunk == Some(true) ==> next is Answer
                            &&& facts.chunk == Some(false) ==> (next matches ReadDecisionView::Fail(
                                AssetReadErrorView::Unavailable(_),
                            ))
                        }
                    }
                }
            }
        }),
        read_decision(asset_id, range, nothing_read()) is LookUp,
{
}

/// A lookup that fails is told without more than its safe detail, and an Asset that is not there is
/// not found.
pub proof fn law_failed_lookups_end_the_read(
    asset_id: Seq<char>,
    range: AssetByteRange,
    facts: ReadFactsView,
    error: AssetStoreErrorView,
)
    ensures
        facts.lookup == Some(Err::<Option<AssetRecordView>, AssetStoreErrorView>(error))
            ==> read_decision(asset_id, range, facts) == ReadDecisionView::Fail(
            AssetReadErrorView::Unavailable(error.safe_detail()),
        ),
        facts.lookup == Some(Ok::<Option<AssetRecordView>, AssetStoreErrorView>(None))
            ==> read_decision(asset_id, range, facts) == ReadDecisionView::Fail(
            AssetReadErrorView::NotFound(asset_id),
        ),
{
}

/// The facts of a read show what they hold.
pub proof fn law_views_of_reads(facts: ReadFacts)
    ensures
        facts@.lookup == match facts.lookup {
            None => None,
            Some(Ok(record)) => Some(Ok(optional_record(record))),
            Some(Err(error)) => Some(Err(error@)),
        },
        facts@.inspected == facts.inspected,
        facts@.opened == facts.opened,
        facts@.sought == facts.sought,
        facts@.read == facts.read,
        facts@.chunk == facts.chunk,
{
}

} // verus!
