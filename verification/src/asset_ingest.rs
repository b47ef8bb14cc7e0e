//! Decisions of the ingest of an Asset: staging, verification, publication and cleanup.
//!
//! The files and the metadata worker live outside. An ingest is driven by asking
//! [`ingest`] again and again, each time with what came of the action it named last, until
//! it names the outcome.

use vstd::prelude::*;

use crate::asset_store::{
    asset_store_view, check_existing, insert_verdict, map_filesystem_error, optional_record,
    AssetDescriptor, AssetDescriptorView, AssetInsertOutcome, AssetRecord, AssetRecordView,
    AssetStoreErrorView, LocalAssetStoreError, PublicationState,
};
use crate::digest::{sha256, ContentDigest, DIGEST_LIMIT};
use crate::text::same_text;

verus! {

/// The bytes of an Asset on their way into its staging file.
pub struct StagingWriter {
    digest: ContentDigest,
    length: u64,
}

/// What was written to a staging file.
#[derive(Debug)]
pub struct VerifiedWrite {
    /// The number of bytes.
    pub length: u64,
    /// The SHA-256 digest of the bytes.
    pub digest: Vec<u8>,
}

impl View for StagingWriter {
    type V = Seq<u8>;

    closed spec fn view(&self) -> Seq<u8> {
        self.digest@
    }
}

/// Whether `added` more bytes are accepted after `length` bytes, and otherwise what is wrong: an
/// Asset may not be longer than its descriptor says.
pub open spec fn staging_verdict(descriptor: AssetDescriptorView, length: int, added: int) -> Result<
    (),
    AssetStoreErrorView,
> {
    if length + added > u64::MAX {
        Err(AssetStoreErrorView::LengthOverflow(descriptor.asset_id, u64::MAX as int))
    } else if length + added > descriptor.byte_length {
        Err(
            AssetStoreErrorView::LengthMismatch(
                descriptor.asset_id,
                descriptor.byte_length,
                length + added,
            ),
        )
    } else {
        Ok(())
    }
}

impl StagingWriter {
    /// The length counted is that of the bytes taken in.
    pub closed spec fn well_formed(self) -> bool {
        self.length == self.digest@.len()
    }

    /// Creates a writer that has taken in nothing.
    pub fn new() -> (r: StagingWriter)
        ensures
            r.well_formed(),
            r@ == Seq::<u8>::empty(),
    {
        StagingWriter { digest: ContentDigest::new(), length: 0 }
    }

    /// Takes in one chunk of the source, which is then written. A chunk that makes the Asset longer
    /// than its descriptor says is refused and changes nothing.
    pub fn receive(&mut self, descriptor: &AssetDescriptor, chunk: &[u8]) -> (r: Result<
        (),
        LocalAssetStoreError,
    >)
        requires
            old(self).well_formed(),
        ensures
            final(self).well_formed(),
            asset_store_view(r) == staging_verdict(
                descriptor@,
                old(self)@.len() as int,
                chunk@.len() as int,
            ),
            final(self)@ == if r is Ok {
                old(self)@ + chunk@
            } else {
                old(self)@
            },
    {
        let next: u64 = match self.length.checked_add(chunk.len() as u64) {
            Some(next) => next,
            None => {
                return Err(
                    LocalAssetStoreError::LengthOverflow {
                        asset_id: descriptor.asset_id.clone(),
                        length: u64::MAX,
                    },
                );
            },
        };
        if next > descriptor.byte_length {
            return Err(
                LocalAssetStoreError::LengthMismatch {
                    asset_id: descriptor.asset_id.clone(),
                    expected: descriptor.byte_length,
                    actual: next,
                },
            );
        }
        self.digest.update(chunk);
        self.length = next;
        Ok(())
    }

    /// Returns the length and the digest of all that was taken in.
    pub fn finish(self) -> (r: VerifiedWrite)
        requires
            self.well_formed(),
            self@.len() < DIGEST_LIMIT,
        ensures
            r.length == self@.len(),
            r.digest@ == sha256(self@),
    {
        VerifiedWrite { length: self.length, digest: self.digest.finish() }
    }
}

/// Whether what was written is the Asset that its descriptor describes.
pub open spec fn written_verdict(
    descriptor: AssetDescriptorView,
    length: int,
    hash: Seq<char>,
) -> Result<(), AssetStoreErrorView> {
    if length != descriptor.byte_length {
        Err(
            AssetStoreErrorView::LengthMismatch(
                descriptor.asset_id,
                descriptor.byte_length,
                length,
            ),
        )
    } else if hash != descriptor.content_hash {
        Err(
            AssetStoreErrorView::HashMismatch(
                descriptor.asset_id,
                descriptor.content_hash,
                hash,
            ),
        )
    } else {
        Ok(())
    }
}

/// Checks that what was written is the Asset that its descriptor describes.
pub fn check_written(descriptor: &AssetDescriptor, length: u64, hash: &str) -> (r: Result<
    (),
    LocalAssetStoreError,
>)
    ensures
        asset_store_view(r) == written_verdict(descriptor@, length as int, hash@),
{
    if length != descriptor.byte_length {
        return Err(
            LocalAssetStoreError::LengthMismatch {
                asset_id: descriptor.asset_id.clone(),
                expected: descriptor.byte_length,
                actual: length,
            },
        );
    }
    if !same_text(hash, descriptor.content_hash.as_str()) {
        return Err(
            LocalAssetStoreError::HashMismatch {
                asset_id: descriptor.asset_id.clone(),
                expected: descriptor.content_hash.clone(),
                actual: hash.to_owned(),
            },
        );
    }
    Ok(())
}

/// What was written to the staging file: its length, and the content hash of its bytes.
#[derive(Debug)]
pub struct StagedFile {
    /// The number of bytes.
    pub length: u64,
    /// The content hash as text.
    pub hash: String,
}

/// What is known so far of an ingest: what came of each action that was taken.
#[derive(Debug)]
pub struct IngestFacts {
    /// The record stored under the identifier.
    pub lookup: Option<Result<Option<AssetRecord>, LocalAssetStoreError>>,
    /// What was written to the staging file.
    pub write: Option<Result<StagedFile, LocalAssetStoreError>>,
    /// What staging the row did.
    pub stage: Option<Result<AssetInsertOutcome, LocalAssetStoreError>>,
    /// Whether the blob was moved into place, and otherwise whether its place was taken.
    pub move_blob: Option<Result<(), bool>>,
    /// Whether the row was published.
    pub publish: Option<Result<(), LocalAssetStoreError>>,
    /// Whether it was tried to move the blob into quarantine.
    pub quarantined: bool,
    /// Whether it was tried to remove the staged row.
    pub unstaged: bool,
    /// Whether the staging file is gone.
    pub file_removed: Option<Result<(), LocalAssetStoreError>>,
}

/// The contents of [`IngestFacts`].
pub struct IngestFactsView {
    /// The record stored under the identifier.
    pub lookup: Option<Result<Option<AssetRecordView>, AssetStoreErrorView>>,
    /// The length and the content hash of the staging file.
    pub write: Option<Result<(int, Seq<char>), AssetStoreErrorView>>,
    /// What staging the row did.
    pub stage: Option<Result<AssetInsertOutcome, AssetStoreErrorView>>,
    /// Whether the blob was moved into place, and otherwise whether its place was taken.
    pub move_blob: Option<Result<(), bool>>,
    /// Whether the row was published.
    pub publish: Option<Result<(), AssetStoreErrorView>>,
    /// Whether it was tried to move the blob into quarantine.
    pub quarantined: bool,
    /// Whether it was tried to remove the staged row.
    pub unstaged: bool,
    /// Whether the staging file is gone.
    pub file_removed: Option<Result<(), AssetStoreErrorView>>,
}

impl View for IngestFacts {
    type V = IngestFactsView;

    open spec fn view(&self) -> IngestFactsView {
        IngestFactsView {
            lookup: match self.lookup {
                None => None,
                Some(Ok(record)) => Some(Ok(optional_record(record))),
                Some(Err(error)) => Some(Err(error@)),
            },
            write: match self.write {
                None => None,
                Some(Ok(file)) => Some(Ok((file.length as int, file.hash@))),
                Some(Err(error)) => Some(Err(error@)),
            },
            stage: match self.stage {
                None => None,
                Some(result) => Some(asset_store_view(result)),
            },
            move_blob: self.move_blob,
            publish: match self.publish {
                None => None,
                Some(result) => Some(asset_store_view(result)),
            },
            quarantined: self.quarantined,
            unstaged: self.unstaged,
            file_removed: match self.file_removed {
                None => None,
                Some(result) => Some(asset_store_view(result)),
            },
        }
    }
}

impl IngestFacts {
    /// Creates the facts of an ingest in which nothing was done yet.
    pub fn new() -> (r: IngestFacts)
        ensures
            r@ == no_facts(),
    {
        IngestFacts {
            lookup: None,
            write: None,
            stage: None,
            move_blob: None,
            publish: None,
            quarantined: false,
            unstaged: false,
            file_removed: None,
        }
    }
}

/// The facts of an ingest in which nothing was done yet.
pub open spec fn no_facts() -> IngestFactsView {
    IngestFactsView {
        lookup: None,
        write: None,
        stage: None,
        move_blob: None,
        publish: None,
        quarantined: false,
        unstaged: false,
        file_removed: None,
    }
}

/// An action of an ingest.
#[derive(Clone, Copy, Debug, PartialEq, Eq, Structural)]
pub enum IngestAction {
    /// Look up the record stored under the identifier.
    LookUp,
    /// Write the source to a new staging file.
    WriteStaging,
    /// Stage the row.
    StageMetadata,
    /// Move the staging file to the place of the blob.
    MoveBlob,
    /// Publish the row.
    PublishMetadata,
    /// Move the blob into quarantine.
    QuarantineBlob,
    /// Remove the staged row.
    RemoveStagedMetadata,
    /// Remove the staging file, if it is there.
    RemoveStagingFile,
}

/// What an ingest does next.
#[derive(Debug)]
pub enum IngestDecision {
    /// Take the action.
    Act(IngestAction),
    /// The ingest ends.
    Done(Result<AssetInsertOutcome, LocalAssetStoreError>),
}

/// The contents of [`IngestDecision`].
pub enum IngestDecisionView {
    /// Take the action.
    Act(IngestAction),
    /// The ingest ends.
    Done(Result<AssetInsertOutcome, AssetStoreErrorView>),
}

impl View for IngestDecision {
    type V = IngestDecisionView;

    open spec fn view(&self) -> IngestDecisionView {
        match *self {
            IngestDecision::Act(action) => IngestDecisionView::Act(action),
            IngestDecision::Done(outcome) => IngestDecisionView::Done(asset_store_view(outcome)),
        }
    }
}

/// The end of an ingest whose staging file has to go first. A failure to remove it counts more than
/// the outcome.
pub open spec fn end_without_file(
    facts: IngestFactsView,
    outcome: Result<AssetInsertOutcome, AssetStoreErrorView>,
) -> IngestDecisionView {
    match facts.file_removed {
        None => IngestDecisionView::Act(IngestAction::RemoveStagingFile),
        Some(Err(error)) => IngestDecisionView::Done(Err(error)),
        Some(Ok(_)) => IngestDecisionView::Done(outcome),
    }
}

/// The failure to move a blob into place.
pub open spec fn move_failure(place_taken: bool) -> AssetStoreErrorView {
    AssetStoreErrorView::Filesystem(
        if place_taken {
            "Asset blob destination already exists"@
        } else {
            "Asset blob rename failed"@
        },
    )
}

/// What an ingest does once the staging file holds the Asset that the descriptor describes.
pub open spec fn publication_decision(facts: IngestFactsView) -> IngestDecisionView {
    match facts.stage {
        None => IngestDecisionView::Act(IngestAction::StageMetadata),
        Some(Err(error)) => end_without_file(facts, Err(error)),
        Some(Ok(AssetInsertOutcome::Existing)) => end_without_file(
            facts,
            Ok(AssetInsertOutcome::Existing),
        ),
        Some(Ok(AssetInsertOutcome::Inserted)) => match facts.move_blob {
            None => IngestDecisionView::Act(IngestAction::MoveBlob),
            Some(Err(place_taken)) => if !facts.unstaged {
                IngestDecisionView::Act(IngestAction::RemoveStagedMetadata)
            } else {
                end_without_file(facts, Err(move_failure(place_taken)))
            },
            Some(Ok(_)) => match facts.publish {
                None => IngestDecisionView::Act(IngestAction::PublishMetadata),
                Some(Ok(_)) => IngestDecisionView::Done(Ok(AssetInsertOutcome::Inserted)),
                Some(Err(error)) => if !facts.quarantined {
                    IngestDecisionView::Act(IngestAction::QuarantineBlob)
                } else if !facts.unstaged {
                    IngestDecisionView::Act(IngestAction::RemoveStagedMetadata)
                } else {
                    IngestDecisionView::Done(Err(error))
                },
            },
        },
    }
}

/// What an ingest does next, from what came of the actions taken so far.
pub open spec fn ingest_decision(descriptor: AssetDescriptorView, facts: IngestFactsView) ->
    IngestDecisionView {
    if descriptor.byte_length > i64::MAX {
        IngestDecisionView::Done(
            Err(
                AssetStoreErrorView::LengthOverflow(descriptor.asset_id, descriptor.byte_length),
            ),
        )
    } else {
        match facts.lookup {
            None => IngestDecisionView::Act(IngestAction::LookUp),
            Some(Err(error)) => IngestDecisionView::Done(Err(error)),
            Some(Ok(existing)) => match insert_verdict(descriptor, existing) {
                Err(error) => IngestDecisionView::Done(Err(error)),
                Ok(AssetInsertOutcome::Existing) => IngestDecisionView::Done(
                    Ok(AssetInsertOutcome::Existing),
                ),
                Ok(AssetInsertOutcome::Inserted) => match facts.write {
                    None => IngestDecisionView::Act(IngestAction::WriteStaging),
                    Some(Err(error)) => end_without_file(facts, Err(error)),
                    Some(Ok((length, hash))) => match written_verdict(descriptor, length, hash) {
                        Err(error) => end_without_file(facts, Err(error)),
                        Ok(_) => publication_decision(facts),
                    },
                },
            },
        }
    }
}

fn decide_end(facts: &IngestFacts, outcome: Result<AssetInsertOutcome, LocalAssetStoreError>) -> (r:
    IngestDecision)
    ensures
        r@ == end_without_file(facts@, asset_store_view(outcome)),
{
    match &facts.file_removed {
        None => IngestDecision::Act(IngestAction::RemoveStagingFile),
        Some(Err(error)) => IngestDecision::Done(Err(error.copy())),
        Some(Ok(_)) => IngestDecision::Done(outcome),
    }
}

fn decide_publication(facts: &IngestFacts) -> (r: IngestDecision)
    ensures
        r@ == publication_decision(facts@),
{
    match &facts.stage {
        None => {
            return IngestDecision::Act(IngestAction::StageMetadata);
        },
        Some(Err(error)) => {
            return decide_end(facts, Err(error.copy()));
        },
        Some(Ok(AssetInsertOutcome::Existing)) => {
            return decide_end(facts, Ok(AssetInsertOutcome::Existing));
        },
        Some(Ok(AssetInsertOutcome::Inserted)) => {},
    }
    match facts.move_blob {
        None => {
            return IngestDecision::Act(IngestAction::MoveBlob);
        },
        Some(Err(place_taken)) => {
            if !facts.unstaged {
                return IngestDecision::Act(IngestAction::RemoveStagedMetadata);
            }
            return decide_end(facts, Err(map_filesystem_error(place_taken)));
        },
        Some(Ok(_)) => {},
    }
    match &facts.publish {
        None => IngestDecision::Act(IngestAction::PublishMetadata),
        Some(Ok(_)) => IngestDecision::Done(Ok(AssetInsertOutcome::Inserted)),
        Some(Err(error)) => if !facts.quarantined {
            IngestDecision::Act(IngestAction::QuarantineBlob)
        } else if !facts.unstaged {
            IngestDecision::Act(IngestAction::RemoveStagedMetadata)
        } else {
            IngestDecision::Done(Err(error.copy()))
        },
    }
}

/// Decides what an ingest does next, from what came of the actions taken so far.
///
/// The source is written to a staging file and verified against the descriptor; then its row is
/// staged, the file is moved into place, and the row is published. Whatever fails on the way is
/// taken back.
pub fn ingest(descriptor: &AssetDescriptor, facts: &IngestFacts) -> (r: IngestDecision)
    ensures
        r@ == ingest_decision(descriptor@, facts@),
{
    if descriptor.byte_length > i64::MAX as u64 {
        return IngestDecision::Done(
            Err(
                LocalAssetStoreError::LengthOverflow {
                    asset_id: descriptor.asset_id.clone(),
                    length: descriptor.byte_length,
                },
            ),
        );
    }
    match &facts.lookup {
        None => {
            return IngestDecision::Act(IngestAction::LookUp);
        },
        Some(Err(error)) => {
            return IngestDecision::Done(Err(error.copy()));
        },
        Some(Ok(existing)) => match check_existing(descriptor, existing) {
            Err(error) => {
                return IngestDecision::Done(Err(error));
            },
            Ok(AssetInsertOutcome::Existing) => {
                return IngestDecision::Done(Ok(AssetInsertOutcome::Existing));
            },
            Ok(AssetInsertOutcome::Inserted) => {},
        },
    }
    match &facts.write {
        None => IngestDecision::Act(IngestAction::WriteStaging),
        Some(Err(error)) => decide_end(facts, Err(error.copy())),
        Some(Ok(file)) => match check_written(descriptor, file.length, file.hash.as_str()) {
            Err(error) => decide_end(facts, Err(error)),
            Ok(_) => decide_publication(facts),
        },
    }
}

/// Whether the staging file holds the Asset that the descriptor describes.
pub open spec fn is_verified(descriptor: AssetDescriptorView, facts: IngestFactsView) -> bool {
    facts.write matches Some(Ok((length, hash))) && length == descriptor.byte_length && hash
        == descriptor.content_hash
}

/// Whether the row was staged.
pub open spec fn is_staged(facts: IngestFactsView) -> bool {
    facts.stage matches Some(Ok(AssetInsertOutcome::Inserted))
}

/// Whether the staging file was moved to the place of the blob.
pub open spec fn is_moved(facts: IngestFactsView) -> bool {
    facts.move_blob matches Some(Ok(_))
}

/// A row is published only for a staging file that has the length and the content hash of the
/// descriptor, after its row was staged and its file was moved into place; an ingest reports that
/// it inserted the Asset only after all of that, and after the row was published.
pub proof fn law_only_verified_content_is_published(
    descriptor: AssetDescriptorView,
    facts: IngestFactsView,
)
    ensures
        ingest_decision(descriptor, facts) == IngestDecisionView::Act(IngestAction::PublishMetadata)
            ==> is_verified(descriptor, facts) && is_staged(facts) && is_moved(facts),
        ingest_decision(descriptor, facts) == IngestDecisionView::Done(
            Ok(AssetInsertOutcome::Inserted),
        ) ==> is_verified(descriptor, facts) && is_staged(facts) && is_moved(facts) && (
        facts.publish matches Some(Ok(_))),
{
}

/// An ingest that began to write and does not insert the Asset leaves nothing of its own behind:
/// the staging file is removed unless it was moved into place, and a staged row is removed, with
/// the blob in quarantine if it had been moved.
pub proof fn law_failed_ingest_is_taken_back(
    descriptor: AssetDescriptorView,
    facts: IngestFactsView,
)
    requires
        facts.write is Some,
        ingest_decision(descriptor, IngestFactsView { write: None, ..facts })
            == IngestDecisionView::Act(IngestAction::WriteStaging),
        ingest_decision(descriptor, facts) is Done,
        ingest_decision(descriptor, facts) != IngestDecisionView::Done(
            Ok(AssetInsertOutcome::Inserted),
        ),
    ensures
        facts.file_removed is Some || (is_verified(descriptor, facts) && is_staged(facts)
            && is_moved(facts)),
        is_verified(descriptor, facts) && is_staged(facts) ==> facts.unstaged && (is_moved(facts)
            ==> facts.quarantined),
{
}

/// An Asset that is published already is reported as existing without touching the source, any
/// file or any row; a different one under its identifier is a conflict, and one under the
/// identifier of an unfinished ingest is refused.
pub proof fn law_existing_asset_is_not_ingested_again(
    descriptor: AssetDescriptorView,
    facts: IngestFactsView,
    record: AssetRecordView,
)
    requires
        descriptor.byte_length <= i64::MAX,
        facts.lookup == Some(
            Ok::<Option<AssetRecordView>, AssetStoreErrorView>(Some(record)),
        ),
    ensures
        ingest_decision(descriptor, facts) == IngestDecisionView::Done(
            if record.state == PublicationState::Staged {
                Err(AssetStoreErrorView::AssetInProgress(descriptor.asset_id))
            } else if record.descriptor == descriptor {
                Ok(AssetInsertOutcome::Existing)
            } else {
                Err(AssetStoreErrorView::AssetConflict(descriptor.asset_id))
            },
        ),
{
}

/// No action is taken twice: each one is named only while nothing is known of it.
pub proof fn law_ingest_ends(descriptor: AssetDescriptorView, facts: IngestFactsView)
    ensures
        match ingest_decision(descriptor, facts) {
            IngestDecisionView::Act(IngestAction::LookUp) => facts.lookup is None,
            IngestDecisionView::Act(IngestAction::WriteStaging) => facts.write is None,
            IngestDecisionView::Act(IngestAction::StageMetadata) => facts.stage is None,
            IngestDecisionView::Act(IngestAction::MoveBlob) => facts.move_blob is None,
            IngestDecisionView::Act(IngestAction::PublishMetadata) => facts.publish is None,
            IngestDecisionView::Act(IngestAction::QuarantineBlob) => !facts.quarantined,
            IngestDecisionView::Act(IngestAction::RemoveStagedMetadata) => !facts.unstaged,
            IngestDecisionView::Act(IngestAction::RemoveStagingFile) => facts.file_removed is None,
            IngestDecisionView::Done(_) => true,
        },
{
}

/// More of a source is taken in exactly as long as the Asset is no longer than its descriptor says,
/// and what was written is the Asset exactly where both the length and the content hash are those
/// of the descriptor; a wrong length is told before a wrong hash.
pub proof fn law_content_is_held_against_the_descriptor(
    descriptor: AssetDescriptorView,
    length: int,
    added: int,
    hash: Seq<char>,
)
    requires
        0 <= length,
        0 <= added,
        0 <= descriptor.byte_length <= u64::MAX,
    ensures
        staging_verdict(descriptor, length, added) is Ok <==> length + added
            <= descriptor.byte_length,
        written_verdict(descriptor, length, hash) is Ok <==> length == descriptor.byte_length
            && hash
            == descriptor.content_hash,
        length != descriptor.byte_length ==> written_verdict(descriptor, length, hash) == Err::<
            (),
            AssetStoreErrorView,
        >(
            AssetStoreErrorView::LengthMismatch(
                descriptor.asset_id,
                descriptor.byte_length,
                length,
            ),
        ),
        length == descriptor.byte_length && hash != descriptor.content_hash ==> written_verdict(
            descriptor,
            length,
            hash,
        ) == Err::<(), AssetStoreErrorView>(
            AssetStoreErrorView::HashMismatch(
                descriptor.asset_id,
                descriptor.content_hash,
                hash,
            ),
        ),
{
}

/// An ingest goes in order: nothing is written before the identifier was found free, no row is
/// staged before the staging file was found to hold the Asset, the file is moved into place only
/// under a staged row, and the row is published only over a blob in place.
pub proof fn law_ingest_goes_in_order(
    descriptor: AssetDescriptorView,
    facts: IngestFactsView,
    action: IngestAction,
)
    requires
        ingest_decision(descriptor, facts) == IngestDecisionView::Act(action),
    ensures
        descriptor.byte_length <= i64::MAX,
        ({
            let free = facts.lookup matches Some(Ok(found)) && found is None;
            let verified = facts.write matches Some(Ok((length, hash))) && length
                == descriptor.byte_length && hash == descriptor.content_hash;
            let staged = facts.stage == Some(
                Ok::<AssetInsertOutcome, AssetStoreErrorView>(AssetInsertOutcome::Inserted),
            );
            match action {
                IngestAction::LookUp => facts.lookup is None,
                IngestAction::WriteStaging => free && facts.write is None,
                IngestAction::StageMetadata => free && verified && facts.stage is None,
                IngestAction::MoveBlob => free && verified && staged && facts.move_blob is None,
                IngestAction::PublishMetadata => free && verified && staged && (
                facts.move_blob matches Some(Ok(_))) && facts.publish is None,
                IngestAction::QuarantineBlob => staged && (facts.move_blob matches Some(Ok(_))) && (
                facts.publish matches Some(Err(_))) && !facts.quarantined,
                IngestAction::RemoveStagedMetadata => staged && !facts.unstaged && ((
                facts.move_blob matches Some(Err(_))) || ((facts.publish matches Some(Err(_)))
                    && facts.quarantined)),
                IngestAction::RemoveStagingFile => free && facts.write is Some
                    && facts.file_removed is None && !(facts.move_blob matches Some(Ok(_))
                    && staged && verified),
            }
        }),
{
}

/// How an ingest ends: it reports an insertion only after the row was published over the verified
/// blob, that the Asset exists only where it was found published, and otherwise the failure that it
/// met.
pub proof fn law_ingest_outcomes(descriptor: AssetDescriptorView, facts: IngestFactsView)
    requires
        descriptor.byte_length <= i64::MAX,
    ensures
        ingest_decision(descriptor, facts) == IngestDecisionView::Done(
            Ok(AssetInsertOutcome::Inserted),
        ) <==> (facts.lookup matches Some(Ok(found)) && found is None) && (
        facts.write matches Some(Ok((length, hash))) && length == descriptor.byte_length && hash
            == descriptor.content_hash) && (facts.stage matches Some(Ok(outcome)) && outcome
            == AssetInsertOutcome::Inserted) && (facts.move_blob matches Some(Ok(_))) && (
        facts.publish matches Some(Ok(_))),
        ingest_decision(descriptor, facts) == IngestDecisionView::Done(
            Ok(AssetInsertOutcome::Existing),
        ) ==> (facts.lookup matches Some(Ok(Some(record))) && record.descriptor == descriptor
            && record.state == PublicationState::Published)
                || (facts.stage matches Some(Ok(outcome))
            && outcome == AssetInsertOutcome::Existing),
        facts.lookup matches Some(Err(error)) ==> ingest_decision(descriptor, facts)
            == IngestDecisionView::Done(Err(error)),
        (facts.lookup matches Some(Ok(found)) && found is None) && (facts.file_removed matches Some(
            Ok(_),
        )) ==> {
            &&& facts.write matches Some(Err(error)) ==> ingest_decision(descriptor, facts)
                == IngestDecisionView::Done(Err(error))
            &&& facts.write matches Some(Ok((length, hash))) ==> {
                &&& length != descriptor.byte_length ==> ingest_decision(descriptor, facts)
                    == IngestDecisionView::Done(
                    Err(
                        AssetStoreErrorView::LengthMismatch(
                            descriptor.asset_id,
                            descriptor.byte_length,
                            length,
                        ),
                    ),
                )
                &&& length == descriptor.byte_length && hash != descriptor.content_hash
                    ==> ingest_decision(descriptor, facts) == IngestDecisionView::Done(
                    Err(
                        AssetStoreErrorView::HashMismatch(
                            descriptor.asset_id,
                            descriptor.content_hash,
                            hash,
                        ),
                    ),
                )
            }
        },
{
}

/// An Asset whose length the store cannot hold is refused before anything is done.
pub proof fn law_overlong_assets_are_refused(
    descriptor: AssetDescriptorView,
    facts: IngestFactsView,
)
    requires
        descriptor.byte_length > i64::MAX,
    ensures
        ingest_decision(descriptor, facts) == IngestDecisionView::Done(
            Err(
                AssetStoreErrorView::LengthOverflow(descriptor.asset_id, descriptor.byte_length),
            ),
        ),
{
}

/// The facts of an ingest show what they hold.
pub proof fn law_views_of_ingests(facts: IngestFacts)
    ensures
        facts@.lookup == match facts.lookup {
            None => None,
            Some(Ok(record)) => Some(Ok(optional_record(record))),
            Some(Err(error)) => Some(Err(error@)),
        },
        facts@.write == match facts.write {
            None => None,
            Some(Ok(file)) => Some(Ok((file.length as int, file.hash@))),
            Some(Err(error)) => Some(Err(error@)),
        },
        facts@.stage == match facts.stage {
            None => None,
            Some(Ok(outcome)) => Some(Ok(outcome)),
            Some(Err(error)) => Some(Err(error@)),
        },
        facts@.move_blob == facts.move_blob,
        facts@.publish == match facts.publish {
            None => None,
            Some(Ok(done)) => Some(Ok(done)),
            Some(Err(error)) => Some(Err(error@)),
        },
        facts@.quarantined == facts.quarantined,
        facts@.unstaged == facts.unstaged,
{
}

} // verus!
