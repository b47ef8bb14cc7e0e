//! Decisions of the recovery that runs when the local Asset store is opened.
//!
//! Every published blob is verified, unfinished ingests are dropped, and every file that belongs to
//! no published Asset goes into quarantine.

use vstd::prelude::*;

use crate::asset_store::{
    asset_row_problem, asset_row_record, asset_store_view, corruption, decode_row, filesystem,
    AssetDescriptor, AssetDescriptorView, AssetRecord, AssetRecordView, AssetStoreErrorView,
    LocalAssetStoreError, PublicationState, RawAssetRow, RawAssetRowView,
};
use crate::text::{same_text, string_texts};

verus! {

/// The rows of a read, none for one that could not be read.
pub open spec fn asset_rows_view(rows: Seq<Option<RawAssetRow>>) -> Seq<Option<RawAssetRowView>> {
    Seq::new(
        rows.len(),
        |i: int|
            match rows[i] {
                Some(row) => Some(row@),
                None => None,
            },
    )
}

/// The records of a list.
pub open spec fn records_view(records: Seq<AssetRecord>) -> Seq<AssetRecordView> {
    Seq::new(records.len(), |i: int| records[i]@)
}

/// What is wrong with a row of the scan.
pub open spec fn scan_row_problem(row: Option<RawAssetRowView>) -> Option<Seq<char>> {
    match row {
        None => Some("Asset metadata row could not be read"@),
        Some(row) => asset_row_problem(row),
    }
}

/// What is wrong with the rows from the one at `index` on: the first problem counts.
pub open spec fn scan_problem(rows: Seq<Option<RawAssetRowView>>, index: int) -> Option<Seq<char>>
    decreases rows.len() - index,
{
    if index < 0 || index >= rows.len() {
        None
    } else if scan_row_problem(rows[index]) is Some {
        scan_row_problem(rows[index])
    } else {
        scan_problem(rows, index + 1)
    }
}

/// The records of rows that can all be decoded.
pub open spec fn scan_records(rows: Seq<Option<RawAssetRowView>>) -> Seq<AssetRecordView> {
    Seq::new(rows.len(), |i: int| asset_row_record(rows[i]->0))
}

/// Decodes every row of the assets table.
pub fn load_all_records(rows: Vec<Option<RawAssetRow>>) -> (r: Result<
    Vec<AssetRecord>,
    LocalAssetStoreError,
>)
    ensures
        match r {
            Ok(records) => scan_problem(asset_rows_view(rows@), 0) is None && records_view(records@)
                == scan_records(asset_rows_view(rows@)),
            Err(error) => scan_problem(asset_rows_view(rows@), 0) is Some && error@
                == AssetStoreErrorView::Corruption(scan_problem(asset_rows_view(rows@), 0)->0),
        },
{
    let ghost all = asset_rows_view(rows@);
    let mut records: Vec<AssetRecord> = Vec::new();
    for row in it: rows
        invariant
            it.seq() == rows@,
            all == asset_rows_view(rows@),
            records@.len() == it.index(),
            forall|i: int|
                0 <= i < records@.len() ==> #[trigger] records@[i]@ == asset_row_record(all[i]->0),
            scan_problem(all, 0) == scan_problem(all, it.index()),
    {
        let ghost index = it.index();
        assert(all[index] == match row {
            Some(row) => Some(row@),
            None => None,
        });
        let row = match row {
            Some(row) => row,
            None => {
                return Err(corruption("Asset metadata row could not be read"));
            },
        };
        match decode_row(row) {
            Ok(record) => {
                records.push(record);
            },
            Err(error) => {
                return Err(error);
            },
        }
    }
    assert(records_view(records@) =~= scan_records(all));
    Ok(records)
}

/// The published ones of the records, in their order.
pub open spec fn published_records(records: Seq<AssetRecordView>) -> Seq<AssetRecordView>
    decreases records.len(),
{
    if records.len() == 0 {
        Seq::empty()
    } else if records.last().state == PublicationState::Published {
        published_records(records.drop_last()).push(records.last())
    } else {
        published_records(records.drop_last())
    }
}

/// The identifiers of the staged ones of the records, in their order.
pub open spec fn staged_ids(records: Seq<AssetRecordView>) -> Seq<Seq<char>>
    decreases records.len(),
{
    if records.len() == 0 {
        Seq::empty()
    } else if records.last().state == PublicationState::Staged {
        staged_ids(records.drop_last()).push(records.last().descriptor.asset_id)
    } else {
        staged_ids(records.drop_last())
    }
}

/// What recovery has to do about the rows.
#[derive(Debug)]
pub struct RecoveryPlan {
    /// The records whose blobs are verified, in this order.
    pub published: Vec<AssetRecord>,
    /// The identifiers whose staged rows are removed.
    pub staged_ids: Vec<String>,
}

/// Whether the blob file `name` belongs to none of the published records.
pub open spec fn is_orphan_blob(published: Seq<AssetRecordView>, name: Seq<char>) -> bool {
    forall|i: int| 0 <= i < published.len() ==> (#[trigger] published[i]).blob_key != name
}

/// Plans what recovery does about the rows.
pub fn plan_recovery(records: Vec<AssetRecord>) -> (r: RecoveryPlan)
    ensures
        records_view(r.published@) == published_records(records_view(records@)),
        string_texts(r.staged_ids@) == staged_ids(records_view(records@)),
{
    let ghost all = records_view(records@);
    let mut published: Vec<AssetRecord> = Vec::new();
    let mut ids: Vec<String> = Vec::new();
    assert(all.take(0) =~= Seq::<AssetRecordView>::empty());
    assert(records_view(published@) =~= Seq::<AssetRecordView>::empty());
    assert(string_texts(ids@) =~= Seq::<Seq<char>>::empty());
    for record in it: records
        invariant
            it.seq() == records@,
            all == records_view(records@),
            records_view(published@) == published_records(all.take(it.index())),
            string_texts(ids@) == staged_ids(all.take(it.index())),
    {
        let ghost index = it.index();
        assert(all[index] == record@);
        assert(all.take(index + 1).drop_last() =~= all.take(index));
        assert(all.take(index + 1).last() == record@);
        let ghost kept = records_view(published@);
        let ghost dropped = string_texts(ids@);
        match record.state {
            PublicationState::Published => {
                published.push(record);
                assert(records_view(published@) =~= kept.push(record@));
            },
            PublicationState::Staged => {
                ids.push(record.descriptor.asset_id);
                assert(string_texts(ids@) =~= dropped.push(record@.descriptor.asset_id));
            },
        }
    }
    assert(all.take(all.len() as int) =~= all);
    RecoveryPlan { published, staged_ids: ids }
}

/// Returns whether the blob file `name` belongs to none of the published records and goes into
/// quarantine.
pub fn orphan_blob(published: &[AssetRecord], name: &str) -> (r: bool)
    ensures
        r == is_orphan_blob(records_view(published@), name@),
{
    let mut i: usize = 0;
    while i < published.len()
        invariant
            i <= published@.len(),
            forall|j: int| 0 <= j < i ==> (#[trigger] published@[j]).blob_key@ != name@,
        decreases published@.len() - i,
    {
        if same_text(published[i].blob_key.as_str(), name) {
            assert(records_view(published@)[i as int].blob_key == name@);
            return false;
        }
        i = i + 1;
    }
    assert forall|j: int| 0 <= j < published@.len() implies (#[trigger] records_view(
        published@,
    )[j]).blob_key != name@ by {
        assert(published@[j].blob_key@ != name@);
    }
    true
}

/// What the place of a blob was found to hold.
#[derive(Clone, Copy, Debug, PartialEq, Eq, Structural)]
pub enum BlobInspection {
    /// Nothing, or nothing that can be inspected.
    Missing,
    /// Something else than a regular file.
    NotRegular,
    /// A regular file of that many bytes.
    Regular(u64),
}

/// What is known so far of the verification of a blob.
#[derive(Debug)]
pub struct BlobFacts {
    /// What its place was found to hold.
    pub inspected: Option<BlobInspection>,
    /// Whether it was opened.
    pub opened: Option<bool>,
    /// The content hash of its bytes; none inside where they could not all be read.
    pub hash: Option<Option<String>>,
}

/// What the verification of a blob does next.
#[derive(Debug)]
pub enum BlobDecision {
    /// Inspect its place.
    Inspect,
    /// Open it.
    Open,
    /// Take the content hash of its bytes.
    Hash,
    /// The verification ends.
    Done(Result<(), LocalAssetStoreError>),
}

/// The contents of [`BlobFacts`].
pub struct BlobFactsView {
    /// What its place was found to hold.
    pub inspected: Option<BlobInspection>,
    /// Whether it was opened.
    pub opened: Option<bool>,
    /// The content hash of its bytes.
    pub hash: Option<Option<Seq<char>>>,
}

impl View for BlobFacts {
    type V = BlobFactsView;

    open spec fn view(&self) -> BlobFactsView {
        BlobFactsView {
            inspected: self.inspected,
            opened: self.opened,
            hash: match self.hash {
                None => None,
                Some(hash) => Some(crate::text::optional_text(hash)),
            },
        }
    }
}

/// The contents of [`BlobDecision`].
pub enum BlobDecisionView {
    /// Inspect its place.
    Inspect,
    /// Open it.
    Open,
    /// Take the content hash of its bytes.
    Hash,
    /// The verification ends.
    Done(Result<(), AssetStoreErrorView>),
}

impl View for BlobDecision {
    type V = BlobDecisionView;

    open spec fn view(&self) -> BlobDecisionView {
        match *self {
            BlobDecision::Inspect => BlobDecisionView::Inspect,
            BlobDecision::Open => BlobDecisionView::Open,
            BlobDecision::Hash => BlobDecisionView::Hash,
            BlobDecision::Done(result) => BlobDecisionView::Done(asset_store_view(result)),
        }
    }
}

/// A verification that finds the store corrupt.
pub open spec fn corrupt_blob(detail: Seq<char>) -> BlobDecisionView {
    BlobDecisionView::Done(Err(AssetStoreErrorView::Corruption(detail)))
}

/// What the verification of a blob does next: a published blob has to be a regular file with the
/// length and the content hash of its descriptor.
pub open spec fn blob_decision(descriptor: AssetDescriptorView, facts: BlobFactsView) ->
    BlobDecisionView {
    match facts.inspected {
        None => BlobDecisionView::Inspect,
        Some(BlobInspection::Missing) => corrupt_blob("published Asset blob is missing"@),
        Some(BlobInspection::NotRegular) => corrupt_blob(
            "published Asset blob is not a regular file"@,
        ),
        Some(BlobInspection::Regular(length)) => if length != descriptor.byte_length {
            corrupt_blob("published Asset blob length does not match metadata"@)
        } else {
            match facts.opened {
                None => BlobDecisionView::Open,
                Some(false) => corrupt_blob("published Asset blob could not be opened"@),
                Some(true) => match facts.hash {
                    None => BlobDecisionView::Hash,
                    Some(None) => corrupt_blob("published Asset blob could not be read"@),
                    Some(Some(hash)) => if hash != descriptor.content_hash {
                        corrupt_blob("published Asset blob hash does not match metadata"@)
                    } else {
                        BlobDecisionView::Done(Ok(()))
                    },
                },
            }
        },
    }
}

/// Decides what the verification of a blob does next.
pub fn verify_blob(descriptor: &AssetDescriptor, facts: &BlobFacts) -> (r: BlobDecision)
    ensures
        r@ == blob_decision(descriptor@, facts@),
{
    match facts.inspected {
        None => {
            return BlobDecision::Inspect;
        },
        Some(BlobInspection::Missing) => {
            return BlobDecision::Done(Err(corruption("published Asset blob is missing")));
        },
        Some(BlobInspection::NotRegular) => {
            return BlobDecision::Done(
                Err(corruption("published Asset blob is not a regular file")),
            );
        },
        Some(BlobInspection::Regular(length)) => if length != descriptor.byte_length {
            return BlobDecision::Done(
                Err(corruption("published Asset blob length does not match metadata")),
            );
        },
    }
    match facts.opened {
        None => {
            return BlobDecision::Open;
        },
        Some(done) => if !done {
            return BlobDecision::Done(Err(corruption("published Asset blob could not be opened")));
        },
    }
    match &facts.hash {
        None => BlobDecision::Hash,
        Some(None) => BlobDecision::Done(Err(corruption("published Asset blob could not be read"))),
        Some(Some(hash)) => if same_text(hash.as_str(), descriptor.content_hash.as_str()) {
            BlobDecision::Done(Ok(()))
        } else {
            BlobDecision::Done(Err(corruption("published Asset blob hash does not match metadata")))
        },
    }
}

/// What came of an attempt to move a file into quarantine.
#[derive(Clone, Copy, Debug, PartialEq, Eq, Structural)]
pub enum MoveOutcome {
    /// The file was moved.
    Moved,
    /// The name chosen for it was taken.
    NameTaken,
    /// The file could not be moved.
    Failed,
}

/// What quarantine does after an attempt.
#[derive(Debug)]
pub enum QuarantineStep {
    /// The file is in quarantine.
    Done,
    /// Another name is tried.
    TryAnotherName,
    /// The file cannot be quarantined.
    Fail(LocalAssetStoreError),
}

/// The number of names that are tried for one file.
pub const QUARANTINE_ATTEMPTS: u32 = 8;

/// The attempts to move one file into quarantine.
#[derive(Debug)]
pub struct Quarantine {
    attempts: u32,
}

impl Quarantine {
    /// The number of names tried so far.
    pub closed spec fn spec_attempts(self) -> int {
        self.attempts as int
    }

    /// Creates the state before the first attempt.
    pub fn new() -> (r: Quarantine)
        ensures
            r.spec_attempts() == 0,
    {
        Quarantine { attempts: 0 }
    }

    /// Takes in what came of an attempt. After the last name that may be tried, the file is given
    /// up; `detail` tells what a file is that cannot be moved at all.
    pub fn after_attempt(&mut self, outcome: MoveOutcome, detail: &'static str) -> (r:
        QuarantineStep)
        requires
            old(self).spec_attempts() < QUARANTINE_ATTEMPTS,
        ensures
            final(self).spec_attempts() == old(self).spec_attempts() + 1,
            match r {
                QuarantineStep::Done => outcome == MoveOutcome::Moved,
                QuarantineStep::TryAnotherName => outcome == MoveOutcome::NameTaken
                    && final(self).spec_attempts() < QUARANTINE_ATTEMPTS,
                QuarantineStep::Fail(error) => (outcome == MoveOutcome::Failed && error@
                    == AssetStoreErrorView::Filesystem(detail@)) || (outcome
                    == MoveOutcome::NameTaken && final(self).spec_attempts() == QUARANTINE_ATTEMPTS
                    && error@ == AssetStoreErrorView::Filesystem(
                    "Asset quarantine name allocation failed"@,
                )),
            },
    {
        self.attempts = self.attempts + 1;
        match outcome {
            MoveOutcome::Moved => QuarantineStep::Done,
            MoveOutcome::Failed => QuarantineStep::Fail(filesystem(detail)),
            MoveOutcome::NameTaken => if self.attempts < QUARANTINE_ATTEMPTS {
                QuarantineStep::TryAnotherName
            } else {
                QuarantineStep::Fail(filesystem("Asset quarantine name allocation failed"))
            },
        }
    }
}

/// Every published record is among those whose blob is verified, and every staged one among those
/// whose row is removed: recovery leaves no row of an unfinished ingest.
pub proof fn law_recovery_covers_every_record(records: Seq<AssetRecordView>, i: int)
    requires
        0 <= i < records.len(),
    ensures
        records[i].state == PublicationState::Published ==> published_records(records).contains(
            records[i],
        ),
        records[i].state == PublicationState::Staged ==> staged_ids(records).contains(
            records[i].descriptor.asset_id,
        ),
    decreases records.len(),
{
    let init = records.drop_last();
    let last = records.last();
    if i < records.len() - 1 {
        law_recovery_covers_every_record(init, i);
        if records[i].state == PublicationState::Published {
            let k = choose|k: int|
                0 <= k < published_records(init).len() && published_records(init)[k] == init[i];
            assert(published_records(records)[k] == records[i]);
        } else {
            let k = choose|k: int|
                0 <= k < staged_ids(init).len() && staged_ids(init)[k]
                    == init[i].descriptor.asset_id;
            assert(staged_ids(records)[k] == records[i].descriptor.asset_id);
        }
    } else if last.state == PublicationState::Published {
        assert(published_records(records).last() == last);
    } else {
        assert(staged_ids(records).last() == last.descriptor.asset_id);
    }
}

/// The blob of a published Asset never goes into quarantine, and a blob that stays is that of a
/// published Asset.
pub proof fn law_recovery_keeps_exactly_the_published_blobs(
    records: Seq<AssetRecordView>,
    name: Seq<char>,
)
    ensures
        is_orphan_blob(published_records(records), name) <==> forall|i: int|
            0 <= i < records.len() && (#[trigger] records[i]).state == PublicationState::Published
                ==> records[i].blob_key != name,
    decreases records.len(),
{
    let published = published_records(records);
    if records.len() > 0 {
        let init = records.drop_last();
        let last = records.last();
        law_recovery_keeps_exactly_the_published_blobs(init, name);
        if is_orphan_blob(published, name) {
            assert forall|k: int| 0 <= k < published_records(init).len() implies (
            #[trigger] published_records(init)[k]).blob_key != name by {
                assert(published[k] == published_records(init)[k]);
            }
            assert forall|i: int|
                0 <= i < records.len() && (#[trigger] records[i]).state
                    == PublicationState::Published implies records[i].blob_key != name by {
                if i < records.len() - 1 {
                    assert(init[i] == records[i]);
                } else {
                    assert(published[published.len() - 1] == last);
                }
            }
        } else {
            let k = choose|k: int|
                0 <= k < published.len() && (#[trigger] published[k]).blob_key == name;
            if k < published_records(init).len() {
                assert(published_records(init)[k] == published[k]);
                assert(!is_orphan_blob(published_records(init), name));
                let i = choose|i: int|
                    0 <= i < init.len() && (#[trigger] init[i]).state == PublicationState::Published
                        && init[i].blob_key == name;
                assert(records[i] == init[i]);
            } else {
                assert(published[k] == last);
                assert(records[records.len() - 1] == last);
            }
        }
    }
}

/// What came of a recovery so far.
#[derive(Debug)]
pub struct RecoveryFacts {
    /// How many of the published blobs were verified.
    pub verified: usize,
    /// What is wrong with the next published blob.
    pub failure: Option<LocalAssetStoreError>,
    /// Whether the staged rows were removed.
    pub unstaged: Option<Result<(), LocalAssetStoreError>>,
    /// Whether the staging files were moved into quarantine.
    pub staging_cleared: Option<Result<(), LocalAssetStoreError>>,
    /// Whether the orphan blobs were moved into quarantine.
    pub orphans_cleared: Option<Result<(), LocalAssetStoreError>>,
}

/// The contents of [`RecoveryFacts`].
pub struct RecoveryFactsView {
    /// How many of the published blobs were verified.
    pub verified: int,
    /// What is wrong with the next published blob.
    pub failure: Option<AssetStoreErrorView>,
    /// Whether the staged rows were removed.
    pub unstaged: Option<Result<(), AssetStoreErrorView>>,
    /// Whether the staging files were moved into quarantine.
    pub staging_cleared: Option<Result<(), AssetStoreErrorView>>,
    /// Whether the orphan blobs were moved into quarantine.
    pub orphans_cleared: Option<Result<(), AssetStoreErrorView>>,
}

/// The contents of an optional result.
pub open spec fn optional_result(r: Option<Result<(), LocalAssetStoreError>>) -> Option<
    Result<(), AssetStoreErrorView>,
> {
    match r {
        None => None,
        Some(result) => Some(asset_store_view(result)),
    }
}

impl View for RecoveryFacts {
    type V = RecoveryFactsView;

    open spec fn view(&self) -> RecoveryFactsView {
        RecoveryFactsView {
            verified: self.verified as int,
            failure: match self.failure {
                None => None,
                Some(error) => Some(error@),
            },
            unstaged: optional_result(self.unstaged),
            staging_cleared: optional_result(self.staging_cleared),
            orphans_cleared: optional_result(self.orphans_cleared),
        }
    }
}

/// What a recovery does next.
#[derive(Debug)]
pub enum RecoveryStep {
    /// Verify the blob of the published record at the index.
    Verify(usize),
    /// Remove the staged rows in one transaction.
    RemoveStaged,
    /// Move the staging files into quarantine.
    ClearStaging,
    /// Move the orphan blobs into quarantine.
    ClearOrphans,
    /// The store is recovered.
    Done,
    /// The store cannot be recovered.
    Fail(LocalAssetStoreError),
}

/// The contents of [`RecoveryStep`].
pub enum RecoveryStepView {
    /// Verify the blob of the published record at the index.
    Verify(int),
    /// Remove the staged rows in one transaction.
    RemoveStaged,
    /// Move the staging files into quarantine.
    ClearStaging,
    /// Move the orphan blobs into quarantine.
    ClearOrphans,
    /// The store is recovered.
    Done,
    /// The store cannot be recovered.
    Fail(AssetStoreErrorView),
}

impl View for RecoveryStep {
    type V = RecoveryStepView;

    open spec fn view(&self) -> RecoveryStepView {
        match *self {
            RecoveryStep::Verify(index) => RecoveryStepView::Verify(index as int),
            RecoveryStep::RemoveStaged => RecoveryStepView::RemoveStaged,
            RecoveryStep::ClearStaging => RecoveryStepView::ClearStaging,
            RecoveryStep::ClearOrphans => RecoveryStepView::ClearOrphans,
            RecoveryStep::Done => RecoveryStepView::Done,
            RecoveryStep::Fail(error) => RecoveryStepView::Fail(error@),
        }
    }
}

/// What a recovery does about the files.
pub open spec fn cleanup_step(facts: RecoveryFactsView) -> RecoveryStepView {
    match facts.staging_cleared {
        None => RecoveryStepView::ClearStaging,
        Some(Err(error)) => RecoveryStepView::Fail(error),
        Some(Ok(_)) => match facts.orphans_cleared {
            None => RecoveryStepView::ClearOrphans,
            Some(Err(error)) => RecoveryStepView::Fail(error),
            Some(Ok(_)) => RecoveryStepView::Done,
        },
    }
}

/// What a recovery of `published` published and `staged` staged records does next: nothing is
/// removed or moved before every published blob was verified.
pub open spec fn recovery_step(published: int, staged: int, facts: RecoveryFactsView) ->
    RecoveryStepView {
    if facts.verified < published {
        match facts.failure {
            None => RecoveryStepView::Verify(facts.verified),
            Some(error) => RecoveryStepView::Fail(error),
        }
    } else if staged == 0 {
        cleanup_step(facts)
    } else {
        match facts.unstaged {
            None => RecoveryStepView::RemoveStaged,
            Some(Err(error)) => RecoveryStepView::Fail(error),
            Some(Ok(_)) => cleanup_step(facts),
        }
    }
}

/// Decides what a recovery does next.
pub fn recover_storage(plan: &RecoveryPlan, facts: &RecoveryFacts) -> (r: RecoveryStep)
    ensures
        r@ == recovery_step(plan.published@.len() as int, plan.staged_ids@.len() as int, facts@),
{
    if facts.verified < plan.published.len() {
        return match &facts.failure {
            None => RecoveryStep::Verify(facts.verified),
            Some(error) => RecoveryStep::Fail(error.copy()),
        };
    }
    if plan.staged_ids.len() > 0 {
        match &facts.unstaged {
            None => {
                return RecoveryStep::RemoveStaged;
            },
            Some(Err(error)) => {
                return RecoveryStep::Fail(error.copy());
            },
            Some(Ok(_)) => {},
        }
    }
    match &facts.staging_cleared {
        None => {
            return RecoveryStep::ClearStaging;
        },
        Some(Err(error)) => {
            return RecoveryStep::Fail(error.copy());
        },
        Some(Ok(_)) => {},
    }
    match &facts.orphans_cleared {
        None => RecoveryStep::ClearOrphans,
        Some(Err(error)) => RecoveryStep::Fail(error.copy()),
        Some(Ok(_)) => RecoveryStep::Done,
    }
}

/// A store with a published blob that fails its verification is left untouched: no row is removed
/// and no file is moved.
pub proof fn law_corrupt_store_is_left_untouched(
    published: int,
    staged: int,
    facts: RecoveryFactsView,
)
    requires
        facts.verified < published,
    ensures
        recovery_step(published, staged, facts) is Verify || recovery_step(
            published,
            staged,
            facts,
        ) is Fail,
{
}

/// A store that is recovered has verified blobs, no staged rows, no staging files and no orphan
/// blobs.
pub proof fn law_recovered_store_is_clean(published: int, staged: int, facts: RecoveryFactsView)
    requires
        recovery_step(published, staged, facts) is Done,
    ensures
        facts.verified >= published,
        staged == 0 || (facts.unstaged matches Some(Ok(_))),
        facts.staging_cleared matches Some(Ok(_)),
        facts.orphans_cleared matches Some(Ok(_)),
{
}

/// A published blob is found sound exactly where it is a regular file of the length that its
/// descriptor tells, could be opened and read, and has the content hash of the descriptor; each of
/// these is looked at in turn, and anything else means that the store is corrupt.
pub proof fn law_sound_blobs(descriptor: AssetDescriptorView, facts: BlobFactsView)
    requires
        0 <= descriptor.byte_length <= u64::MAX,
    ensures
        blob_decision(descriptor, facts) == BlobDecisionView::Done(Ok(())) <==> (
        facts.inspected matches Some(BlobInspection::Regular(length)) && length
            == descriptor.byte_length) && facts.opened == Some(true) && (
        facts.hash matches Some(Some(hash)) && hash == descriptor.content_hash),
        blob_decision(descriptor, facts) is Inspect <==> facts.inspected is None,
        blob_decision(descriptor, facts) is Open <==> (
        facts.inspected matches Some(BlobInspection::Regular(length)) && length
            == descriptor.byte_length) && facts.opened is None,
        blob_decision(descriptor, facts) is Hash <==> (
        facts.inspected matches Some(BlobInspection::Regular(length)) && length
            == descriptor.byte_length) && facts.opened == Some(true) && facts.hash is None,
        blob_decision(descriptor, facts) matches BlobDecisionView::Done(Err(error))
            ==> error is Corruption,
{
    if let Some(opened) = facts.opened {
        assert(opened == true || opened == false);
    }
}

/// All rows are read and decoded, in their order, or none: the first one that is not is the
/// failure.
pub proof fn law_every_row_is_recovered(rows: Seq<Option<RawAssetRowView>>)
    ensures
        scan_problem(rows, 0) is None <==> forall|i: int|
            0 <= i < rows.len() ==> (#[trigger] rows[i]) is Some && asset_row_problem(
                rows[i]->0,
            ) is None,
        scan_records(rows).len() == rows.len(),
        forall|i: int|
            0 <= i < rows.len() ==> #[trigger] scan_records(rows)[i]
                == asset_row_record(rows[i]->0),
{
    lemma_scan_problem(rows, 0);
}

proof fn lemma_scan_problem(rows: Seq<Option<RawAssetRowView>>, index: int)
    requires
        0 <= index,
    ensures
        scan_problem(rows, index) is None <==> forall|i: int|
            index <= i < rows.len() ==> (#[trigger] rows[i]) is Some && asset_row_problem(
                rows[i]->0,
            ) is None,
    decreases rows.len() - index,
{
    if index < rows.len() {
        lemma_scan_problem(rows, index + 1);
    }
}

/// Recovery looks at published records only to verify them and drops staged ones only: every record
/// to verify is a published one of the store, and every identifier to drop is that of a staged one.
pub proof fn law_recovery_plans_nothing_else(records: Seq<AssetRecordView>)
    ensures
        forall|i: int|
            0 <= i < published_records(records).len() ==> (#[trigger] published_records(
                records,
            )[i]).state == PublicationState::Published && records.contains(
                published_records(records)[i],
            ),
        forall|i: int|
            0 <= i < staged_ids(records).len() ==> exists|k: int|
                0 <= k < records.len() && (#[trigger] records[k]).state == PublicationState::Staged
                    && records[k].descriptor.asset_id == #[trigger] staged_ids(records)[i],
        published_records(records).len() + staged_ids(records).len() == records.len(),
    decreases records.len(),
{
    if records.len() > 0 {
        let init = records.drop_last();
        law_recovery_plans_nothing_else(init);
        let published = published_records(records);
        let staged = staged_ids(records);
        assert(records[records.len() - 1] == records.last());
        assert forall|i: int| 0 <= i < published.len() implies (#[trigger] published[i]).state
            == PublicationState::Published && records.contains(published[i]) by {
            if i < published_records(init).len() {
                assert(published[i] == published_records(init)[i]);
                assert(init.contains(published[i]));
                let k = choose|k: int| 0 <= k < init.len() && init[k] == published[i];
                assert(records[k] == published[i]);
            }
        }
        assert forall|i: int| 0 <= i < staged.len() implies exists|k: int|
            0 <= k < records.len() && (#[trigger] records[k]).state == PublicationState::Staged
                && records[k].descriptor.asset_id == #[trigger] staged[i] by {
            if i < staged_ids(init).len() {
                assert(staged[i] == staged_ids(init)[i]);
                let k = choose|k: int|
                    0 <= k < init.len() && (#[trigger] init[k]).state == PublicationState::Staged
                        && init[k].descriptor.asset_id == staged_ids(init)[i];
                assert(records[k] == init[k]);
            } else {
                assert(records[records.len() - 1].state == PublicationState::Staged);
            }
        }
    }
}

/// A recovery goes in order: every published blob is verified, one after the other, before the
/// staged rows are removed, where there are any, and these before the staging files and then the
/// orphan blobs are cleared away.
pub proof fn law_recovery_goes_in_order(published: int, staged: int, facts: RecoveryFactsView)
    requires
        0 <= facts.verified <= published,
        0 <= staged,
    ensures
        ({
            let next = recovery_step(published, staged, facts);
            &&& facts.verified < published && facts.failure is None ==> next
                == RecoveryStepView::Verify(facts.verified)
            &&& facts.verified < published && facts.failure is Some ==> next
                == RecoveryStepView::Fail(facts.failure->0)
            &&& facts.verified == published && staged > 0 && facts.unstaged is None
                ==> next is RemoveStaged
            &&& next is RemoveStaged ==> staged > 0 && facts.verified == published
                && facts.unstaged is None
            &&& next is ClearStaging <==> facts.verified == published && (staged == 0 || (
            facts.unstaged matches Some(Ok(_)))) && facts.staging_cleared is None
            &&& next is ClearOrphans <==> facts.verified == published && (staged == 0 || (
            facts.unstaged matches Some(Ok(_)))) && (facts.staging_cleared matches Some(Ok(_)))
                && facts.orphans_cleared is None
            &&& next is Done <==> facts.verified == published && (staged == 0 || (
            facts.unstaged matches Some(Ok(_)))) && (facts.staging_cleared matches Some(Ok(_))) && (
            facts.orphans_cleared matches Some(Ok(_)))
        }),
{
}

/// A list of rows, none for one that could not be read, and a list of records show what they hold,
/// in their order.
pub proof fn law_views_of_rows_and_records(
    rows: Seq<Option<RawAssetRow>>,
    records: Seq<AssetRecord>,
)
    ensures
        records_view(records).len() == records.len(),
        forall|i: int| 0 <= i < records.len() ==> #[trigger] records_view(records)[i]
            == records[i]@,
        asset_rows_view(rows).len() == rows.len(),
        forall|i: int|
            0 <= i < rows.len() ==> #[trigger] asset_rows_view(rows)[i] == match rows[i] {
                Some(row) => Some(row@),
                None => None,
            },
{
}

} // verus!
