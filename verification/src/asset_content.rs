//! What becomes of the bytes of an Asset: from the source of its ingest to the answer of a range
//! read.
//!
//! A store is its rows and its blobs. An ingest takes the actions that [`crate::asset_ingest`]
//! names, and a read the steps that [`crate::asset_read`] names; each of them either does its work
//! on the store, or fails. A recovery removes what [`crate::asset_recovery`] names.

use vstd::prelude::*;

use crate::asset_ingest::{
    ingest_decision, is_moved, is_staged, is_verified, no_facts, staging_verdict, IngestAction,
    IngestDecisionView, IngestFactsView,
};
use crate::asset_read::{
    nothing_read, read_decision, served_length, AssetByteRange, BlobKind, ReadDecisionView,
    ReadFactsView,
};
use crate::asset_recovery::{
    is_orphan_blob, law_recovery_keeps_exactly_the_published_blobs, published_records, staged_ids,
};
use crate::asset_store::{
    asset_row_record, blob_name, encoded_asset, insert_verdict, law_published_asset_is_read_back,
    lookup_verdict, publish_verdict, stage_verdict, visible_asset, AssetDescriptorView,
    AssetInsertOutcome, AssetRecordView, AssetStoreErrorView, PublicationState, RawAssetRowView,
    BLOB_SUFFIX, PUBLISHED, STAGED,
};
use crate::digest::{sha256, DIGEST_LIMIT};

verus! {

/// The rows of the assets table by their identifiers, and the blobs by their names.
pub struct StoreView {
    /// The rows.
    pub rows: Map<Seq<char>, RawAssetRowView>,
    /// The bytes of the blobs.
    pub blobs: Map<Seq<char>, Seq<u8>>,
}

impl StoreView {
    /// The row under the identifier.
    pub open spec fn row(self, asset_id: Seq<char>) -> Option<RawAssetRowView> {
        if self.rows.contains_key(asset_id) {
            Some(self.rows[asset_id])
        } else {
            None
        }
    }

    /// The bytes of the blob with the name.
    pub open spec fn blob(self, key: Seq<char>) -> Option<Seq<u8>> {
        if self.blobs.contains_key(key) {
            Some(self.blobs[key])
        } else {
            None
        }
    }

    /// Whether the store holds the published Asset with these bytes.
    pub open spec fn holds(self, descriptor: AssetDescriptorView, bytes: Seq<u8>) -> bool {
        let key = blob_name(descriptor.asset_id);
        &&& self.row(descriptor.asset_id) == Some(
            encoded_asset(descriptor, key, PublicationState::Published),
        )
        &&& self.blob(key) == Some(bytes)
        &&& bytes.len() == descriptor.byte_length <= i64::MAX
    }
}

/// The ingest of one Asset.
pub struct Ingest {
    /// The descriptor.
    pub descriptor: AssetDescriptorView,
    /// The chunks in which the source is read.
    pub chunks: Seq<Seq<u8>>,
    /// The text of the content hash with the digest.
    pub hash_text: spec_fn(Seq<u8>) -> Seq<char>,
}

/// A state of an ingest, with the store on which it works.
pub struct IngestState {
    /// What is known so far.
    pub facts: IngestFactsView,
    /// The bytes of the staging file, if it is there.
    pub staging: Option<Seq<u8>>,
    /// The store.
    pub store: StoreView,
}

/// What writing the chunks behind the bytes already taken in leaves in the staging file, and
/// whether all of the source was taken in.
pub open spec fn staging_write(
    descriptor: AssetDescriptorView,
    chunks: Seq<Seq<u8>>,
    taken: Seq<u8>,
) -> (Seq<u8>, Result<(), AssetStoreErrorView>)
    decreases chunks.len(),
{
    if chunks.len() == 0 {
        if taken.len() >= DIGEST_LIMIT {
            (
                taken,
                Err(
                    AssetStoreErrorView::LengthOverflow(descriptor.asset_id, taken.len() as int),
                ),
            )
        } else {
            (taken, Ok(()))
        }
    } else {
        match staging_verdict(descriptor, taken.len() as int, chunks.first().len() as int) {
            Err(error) => (taken, Err(error)),
            Ok(_) => staging_write(descriptor, chunks.drop_first(), taken + chunks.first()),
        }
    }
}

impl Ingest {
    /// The bytes of the source.
    pub open spec fn source(self) -> Seq<u8> {
        self.chunks.flatten()
    }

    /// The name of the blob.
    pub open spec fn key(self) -> Seq<char> {
        blob_name(self.descriptor.asset_id)
    }

    /// The state in which the ingest begins.
    pub open spec fn beginning(self, store: StoreView) -> IngestState {
        IngestState { facts: no_facts(), staging: None, store }
    }

    /// What the action does where nothing disturbs it.
    pub open spec fn performed(self, action: IngestAction, before: IngestState) -> IngestState {
        let facts = before.facts;
        let store = before.store;
        let id = self.descriptor.asset_id;
        match action {
            IngestAction::LookUp => IngestState {
                facts: IngestFactsView { lookup: Some(lookup_verdict(store.row(id))), ..facts },
                ..before
            },
            IngestAction::WriteStaging => {
                let written = staging_write(self.descriptor, self.chunks, Seq::empty());
                IngestState {
                    facts: IngestFactsView {
                        write: Some(
                            match written.1 {
                                Err(error) => Err(error),
                                Ok(_) => Ok(
                                    (
                                        written.0.len() as int,
                                        (self.hash_text)(sha256(written.0)),
                                    ),
                                ),
                            },
                        ),
                        ..facts
                    },
                    staging: Some(written.0),
                    ..before
                }
            },
            IngestAction::StageMetadata => match stage_verdict(
                self.descriptor,
                self.key(),
                store.row(id),
            ) {
                Err(error) => IngestState {
                    facts: IngestFactsView { stage: Some(Err(error)), ..facts },
                    ..before
                },
                Ok(None) => IngestState {
                    facts: IngestFactsView {
                        stage: Some(Ok(AssetInsertOutcome::Existing)),
                        ..facts
                    },
                    ..before
                },
                Ok(Some(row)) => IngestState {
                    facts: IngestFactsView {
                        stage: Some(Ok(AssetInsertOutcome::Inserted)),
                        ..facts
                    },
                    store: StoreView { rows: store.rows.insert(id, row), ..store },
                    ..before
                },
            },
            IngestAction::MoveBlob => match before.staging {
                None => IngestState {
                    facts: IngestFactsView { move_blob: Some(Err(false)), ..facts },
                    ..before
                },
                Some(bytes) => IngestState {
                    facts: IngestFactsView { move_blob: Some(Ok(())), ..facts },
                    staging: None,
                    store: StoreView { blobs: store.blobs.insert(self.key(), bytes), ..store },
                },
            },
            IngestAction::PublishMetadata => match publish_verdict(
                self.descriptor,
                self.key(),
                store.row(id),
            ) {
                Err(error) => IngestState {
                    facts: IngestFactsView { publish: Some(Err(error)), ..facts },
                    ..before
                },
                Ok(_) => IngestState {
                    facts: IngestFactsView { publish: Some(Ok(())), ..facts },
                    store: StoreView {
                        rows: store.rows.insert(
                            id,
                            RawAssetRowView { publication_state: PUBLISHED@, ..store.rows[id] },
                        ),
                        ..store
                    },
                    ..before
                },
            },
            IngestAction::QuarantineBlob => IngestState {
                facts: IngestFactsView { quarantined: true, ..facts },
                store: StoreView { blobs: store.blobs.remove(self.key()), ..store },
                ..before
            },
            IngestAction::RemoveStagedMetadata => IngestState {
                facts: IngestFactsView { unstaged: true, ..facts },
                store: if store.row(id) matches Some(row) && row.publication_state == STAGED@ {
                    StoreView { rows: store.rows.remove(id), ..store }
                } else {
                    store
                },
                ..before
            },
            IngestAction::RemoveStagingFile => IngestState {
                facts: IngestFactsView { file_removed: Some(Ok(())), ..facts },
                staging: None,
                ..before
            },
        }
    }

    /// Whether the action, where it fails, can lead from one state to the other. A change of a row
    /// whose outcome is not known may have been made.
    pub open spec fn can_fail(
        self,
        action: IngestAction,
        before: IngestState,
        after: IngestState,
    ) -> bool {
        let facts = before.facts;
        let known = after.facts;
        match action {
            IngestAction::LookUp => known.lookup matches Some(Err(_)) && after == (IngestState {
                facts: IngestFactsView { lookup: known.lookup, ..facts },
                ..before
            }),
            IngestAction::WriteStaging => known.write matches Some(Err(_)) && after == (
            IngestState {
                facts: IngestFactsView { write: known.write, ..facts },
                staging: after.staging,
                ..before
            }),
            IngestAction::StageMetadata => known.stage matches Some(Err(_)) && after == (
            IngestState {
                facts: IngestFactsView { stage: known.stage, ..facts },
                store: after.store,
                ..before
            }) && (after.store == before.store || after.store == self.performed(
                action,
                before,
            ).store),
            IngestAction::MoveBlob => known.move_blob matches Some(Err(_)) && after == (
            IngestState {
                facts: IngestFactsView { move_blob: known.move_blob, ..facts },
                ..before
            }),
            IngestAction::PublishMetadata => known.publish matches Some(Err(_)) && after == (
            IngestState {
                facts: IngestFactsView { publish: known.publish, ..facts },
                store: after.store,
                ..before
            }) && (after.store == before.store || after.store == self.performed(
                action,
                before,
            ).store),
            IngestAction::QuarantineBlob => after == (IngestState {
                facts: IngestFactsView { quarantined: true, ..facts },
                ..before
            }),
            IngestAction::RemoveStagedMetadata => after == (IngestState {
                facts: IngestFactsView { unstaged: true, ..facts },
                ..before
            }),
            IngestAction::RemoveStagingFile => known.file_removed matches Some(Err(_)) && after
                == (IngestState {
                facts: IngestFactsView { file_removed: known.file_removed, ..facts },
                ..before
            }),
        }
    }

    /// Whether the ingest goes from one state to the other by the action that it names.
    pub open spec fn goes(self, before: IngestState, after: IngestState) -> bool {
        match ingest_decision(self.descriptor, before.facts) {
            IngestDecisionView::Act(action) => after == self.performed(action, before)
                || self.can_fail(action, before, after),
            IngestDecisionView::Done(_) => false,
        }
    }

    /// Whether the ingest begins on the store and goes through the states, one by one.
    pub open spec fn goes_through(self, store: StoreView, states: Seq<IngestState>) -> bool {
        &&& states.len() > 0
        &&& states[0] == self.beginning(store)
        &&& forall|i: int|
            0 <= i < states.len() - 1 ==> self.goes(#[trigger] states[i], states[i + 1])
    }

    /// The state after that many actions where nothing disturbs them, or the last one if the ingest
    /// ends before.
    pub open spec fn undisturbed(self, store: StoreView, actions: nat) -> IngestState
        decreases actions,
    {
        if actions == 0 {
            self.beginning(store)
        } else {
            let before = self.undisturbed(store, (actions - 1) as nat);
            match ingest_decision(self.descriptor, before.facts) {
                IngestDecisionView::Act(action) => self.performed(action, before),
                IngestDecisionView::Done(_) => before,
            }
        }
    }

    /// What holds in every state of an ingest that began on the store.
    spec fn is_reached(self, start: StoreView, state: IngestState) -> bool {
        let facts = state.facts;
        let store = state.store;
        let id = self.descriptor.asset_id;
        &&& forall|other: Seq<char>| other != id ==> store.row(other) == start.row(other)
        &&& forall|other: Seq<char>|
            other != self.key() ==> store.blob(other) == start.blob(other)
        &&& facts.write is None ==> facts.stage is None && store == start
        &&& !(facts.lookup matches Some(Ok(_))) ==> facts.write is None
        &&& facts.lookup matches Some(Ok(record)) ==> lookup_verdict(start.row(id)) == Ok::<
            _,
            AssetStoreErrorView,
        >(record) && (insert_verdict(self.descriptor, record) != Ok::<_, AssetStoreErrorView>(
            AssetInsertOutcome::Inserted,
        ) ==> facts.write is None)
        &&& facts.write is Some ==> self.descriptor.byte_length <= i64::MAX
        &&& !is_verified(self.descriptor, facts) ==> facts.stage is None
        &&& !is_staged(facts) ==> facts.move_blob is None
        &&& !is_moved(facts) ==> facts.publish is None
        &&& !(facts.publish matches Some(Err(_))) ==> !facts.quarantined
        &&& facts.unstaged ==> ((facts.publish matches Some(Err(_))) || (
        facts.move_blob matches Some(Err(_))))
        &&& facts.file_removed is Some ==> ingest_decision(self.descriptor, facts) is Done
        &&& facts.write matches Some(Ok(written)) ==> written.0 == self.source().len() && written.1
            == (self.hash_text)(sha256(self.source()))
        &&& (facts.write matches Some(Ok(_))) && facts.move_blob is None
            && facts.file_removed is None ==> state.staging == Some(self.source())
        &&& is_staged(facts) && facts.publish is None && !facts.unstaged ==> store.row(id) == Some(
            encoded_asset(self.descriptor, self.key(), PublicationState::Staged),
        )
        &&& is_moved(facts) && !facts.quarantined ==> store.blob(self.key()) == Some(self.source())
        &&& facts.publish matches Some(Ok(_)) ==> store.row(id) == Some(
            encoded_asset(self.descriptor, self.key(), PublicationState::Published),
        )
    }
}

/// What is taken in of a source is the source from its beginning, and all of it where nothing is
/// refused; nothing is refused of a source that is no longer than the Asset.
proof fn lemma_staging_write(
    descriptor: AssetDescriptorView,
    chunks: Seq<Seq<u8>>,
    taken: Seq<u8>,
)
    ensures
        staging_write(descriptor, chunks, taken).1 is Ok ==> staging_write(
            descriptor,
            chunks,
            taken,
        ).0 == taken + chunks.flatten(),
        taken.len() + chunks.flatten().len() <= descriptor.byte_length < DIGEST_LIMIT
            ==> staging_write(descriptor, chunks, taken).1 is Ok,
    decreases chunks.len(),
{
    if chunks.len() == 0 {
        assert(taken + chunks.flatten() =~= taken);
    } else {
        lemma_staging_write(descriptor, chunks.drop_first(), taken + chunks.first());
        assert(taken + chunks.flatten() =~= (taken + chunks.first())
            + chunks.drop_first().flatten());
    }
}

proof fn lemma_one_action(ingest: Ingest, start: StoreView, before: IngestState, after: IngestState)
    requires
        ingest.is_reached(start, before),
        ingest.goes(before, after),
        0 <= ingest.descriptor.byte_length,
    ensures
        ingest.is_reached(start, after),
{
    lemma_staging_write(ingest.descriptor, ingest.chunks, Seq::empty());
    assert(Seq::<u8>::empty() + ingest.source() =~= ingest.source());
    if ingest.descriptor.byte_length <= i64::MAX {
        law_published_asset_is_read_back(ingest.descriptor);
    }
}

proof fn lemma_reached(ingest: Ingest, store: StoreView, states: Seq<IngestState>, i: int)
    requires
        0 <= ingest.descriptor.byte_length,
        ingest.goes_through(store, states),
        0 <= i < states.len(),
    ensures
        ingest.is_reached(store, states[i]),
    decreases i,
{
    if i > 0 {
        lemma_reached(ingest, store, states, i - 1);
        assert(ingest.goes(states[i - 1], states[i - 1 + 1]));
        lemma_one_action(ingest, store, states[i - 1], states[i]);
    }
}

/// Whatever fails on the way: where an ingest reports that it inserted the Asset, the store holds
/// the published Asset with exactly the bytes of the source, which have the length and the content
/// hash of the descriptor; the other rows and the other blobs are as they were.
pub proof fn law_inserted_asset_is_stored(
    ingest: Ingest,
    store: StoreView,
    states: Seq<IngestState>,
)
    requires
        0 <= ingest.descriptor.byte_length,
        ingest.goes_through(store, states),
        ingest_decision(ingest.descriptor, states.last().facts) == IngestDecisionView::Done(
            Ok(AssetInsertOutcome::Inserted),
        ),
    ensures
        states.last().store.holds(ingest.descriptor, ingest.source()),
        (ingest.hash_text)(sha256(ingest.source())) == ingest.descriptor.content_hash,
        forall|other: Seq<char>|
            other != ingest.descriptor.asset_id ==> #[trigger] states.last().store.row(other)
                == store.row(other),
        forall|other: Seq<char>|
            other != ingest.key() ==> #[trigger] states.last().store.blob(other) == store.blob(
                other,
            ),
{
    lemma_reached(ingest, store, states, states.len() - 1);
}

/// An ingest on a store that has no row under the identifier, of a source with the length and the
/// content hash of the descriptor, inserts the Asset unless an action of it fails. The length is
/// one whose digest can be told.
pub proof fn law_undisturbed_ingest_inserts_the_asset(ingest: Ingest, store: StoreView)
    requires
        store.row(ingest.descriptor.asset_id) is None,
        ingest.source().len() == ingest.descriptor.byte_length < DIGEST_LIMIT,
        (ingest.hash_text)(sha256(ingest.source())) == ingest.descriptor.content_hash,
    ensures
        ingest_decision(ingest.descriptor, ingest.undisturbed(store, 5).facts)
            == IngestDecisionView::Done(Ok(AssetInsertOutcome::Inserted)),
        ingest.undisturbed(store, 5).store.holds(ingest.descriptor, ingest.source()),
{
    reveal_with_fuel(Ingest::undisturbed, 6);
    lemma_staging_write(ingest.descriptor, ingest.chunks, Seq::empty());
    assert(Seq::<u8>::empty() + ingest.source() =~= ingest.source());
    law_published_asset_is_read_back(ingest.descriptor);
}

/// The names of the blobs of two Assets differ.
proof fn lemma_blob_names_differ(a: Seq<char>, b: Seq<char>)
    requires
        a != b,
    ensures
        blob_name(a) != blob_name(b),
{
    if blob_name(a) == blob_name(b) {
        assert(a =~= blob_name(a).take(blob_name(a).len() - BLOB_SUFFIX@.len()));
        assert(b =~= blob_name(b).take(blob_name(b).len() - BLOB_SUFFIX@.len()));
    }
}

/// A published Asset stays as it is, with its bytes, in every state of every later ingest: of
/// another Asset, of the same one, or of a different one under its identifier, whether that ingest
/// ends well or not.
pub proof fn law_published_bytes_stay(
    descriptor: AssetDescriptorView,
    bytes: Seq<u8>,
    ingest: Ingest,
    store: StoreView,
    states: Seq<IngestState>,
    i: int,
)
    requires
        store.holds(descriptor, bytes),
        0 <= ingest.descriptor.byte_length,
        ingest.goes_through(store, states),
        0 <= i < states.len(),
    ensures
        states[i].store.holds(descriptor, bytes),
{
    lemma_reached(ingest, store, states, i);
    law_published_asset_is_read_back(descriptor);
    if ingest.descriptor.asset_id != descriptor.asset_id {
        lemma_blob_names_differ(ingest.descriptor.asset_id, descriptor.asset_id);
    }
}

/// A range read of one Asset on a store.
pub struct Reading {
    /// The store.
    pub store: StoreView,
    /// The identifier of the Asset.
    pub asset_id: Seq<char>,
    /// The range.
    pub range: AssetByteRange,
    /// Whether bytes at an offset are accepted as a chunk of an Asset of a length.
    pub accepts: spec_fn(int, Seq<u8>, int) -> bool,
}

/// A state of a range read.
pub struct ReadState {
    /// What is known so far.
    pub facts: ReadFactsView,
    /// The name of the blob that was inspected.
    pub key: Seq<char>,
    /// The place in the blob.
    pub position: int,
    /// The bytes that were read.
    pub bytes: Seq<u8>,
    /// The number of bytes of the Asset of which the chunk was made.
    pub total: int,
}

impl Reading {
    /// The state in which the read begins.
    pub open spec fn beginning(self) -> ReadState {
        ReadState {
            facts: nothing_read(),
            key: Seq::empty(),
            position: 0,
            bytes: Seq::empty(),
            total: 0,
        }
    }

    /// What the next step does where nothing disturbs it.
    pub open spec fn performed(self, before: ReadState) -> ReadState {
        let facts = before.facts;
        match read_decision(self.asset_id, self.range, facts) {
            ReadDecisionView::LookUp => ReadState {
                facts: ReadFactsView {
                    lookup: Some(lookup_verdict(self.store.row(self.asset_id))),
                    ..facts
                },
                ..before
            },
            ReadDecisionView::Inspect(key) => ReadState {
                facts: ReadFactsView {
                    inspected: Some(
                        if self.store.blob(key) is Some {
                            BlobKind::Regular
                        } else {
                            BlobKind::Uninspected
                        },
                    ),
                    ..facts
                },
                key,
                ..before
            },
            ReadDecisionView::Open => ReadState {
                facts: ReadFactsView {
                    opened: Some(self.store.blob(before.key) is Some),
                    ..facts
                },
                ..before
            },
            ReadDecisionView::Seek(offset) => ReadState {
                facts: ReadFactsView { sought: Some(true), ..facts },
                position: offset,
                ..before
            },
            ReadDecisionView::Read(length) => {
                let end = before.position + length;
                let blob = self.store.blob(before.key)->0;
                ReadState {
                    facts: ReadFactsView { read: Some(end <= blob.len()), ..facts },
                    bytes: if end <= blob.len() {
                        blob.subrange(before.position, end)
                    } else {
                        before.bytes
                    },
                    ..before
                }
            },
            ReadDecisionView::MakeChunk(offset, total) => ReadState {
                facts: ReadFactsView {
                    chunk: Some((self.accepts)(offset, before.bytes, total)),
                    ..facts
                },
                total,
                ..before
            },
            ReadDecisionView::Answer => before,
            ReadDecisionView::Fail(_) => before,
        }
    }

    /// Whether the next step, where it fails, leads from one state to the other.
    pub open spec fn can_fail(self, before: ReadState, after: ReadState) -> bool {
        let facts = before.facts;
        let known = after.facts;
        &&& after == (ReadState { facts: known, ..before })
        &&& match read_decision(self.asset_id, self.range, facts) {
            ReadDecisionView::LookUp => (known.lookup matches Some(Err(_))) && known == (
            ReadFactsView { lookup: known.lookup, ..facts }),
            ReadDecisionView::Inspect(_) => known.inspected is Some && known.inspected != Some(
                BlobKind::Regular,
            ) && known == (ReadFactsView { inspected: known.inspected, ..facts }),
            ReadDecisionView::Open => known == (ReadFactsView { opened: Some(false), ..facts }),
            ReadDecisionView::Seek(_) => known == (ReadFactsView { sought: Some(false), ..facts }),
            ReadDecisionView::Read(_) => known == (ReadFactsView { read: Some(false), ..facts }),
            _ => false,
        }
    }

    /// Whether the read goes from one state to the other by the step that it names.
    pub open spec fn goes(self, before: ReadState, after: ReadState) -> bool {
        match read_decision(self.asset_id, self.range, before.facts) {
            ReadDecisionView::Answer => false,
            ReadDecisionView::Fail(_) => false,
            _ => after == self.performed(before) || self.can_fail(before, after),
        }
    }

    /// Whether the read begins and goes through the states, one by one.
    pub open spec fn goes_through(self, states: Seq<ReadState>) -> bool {
        &&& states.len() > 0
        &&& states[0] == self.beginning()
        &&& forall|i: int|
            0 <= i < states.len() - 1 ==> self.goes(#[trigger] states[i], states[i + 1])
    }

    /// The state after that many steps where nothing disturbs them.
    pub open spec fn undisturbed(self, steps: nat) -> ReadState
        decreases steps,
    {
        if steps == 0 {
            self.beginning()
        } else {
            self.performed(self.undisturbed((steps - 1) as nat))
        }
    }

    /// The bytes of the range that an Asset with these bytes has.
    pub open spec fn asked_of(self, bytes: Seq<u8>) -> Seq<u8> {
        bytes.subrange(
            self.range.offset as int,
            self.range.offset + served_length(self.range, bytes.len() as int),
        )
    }

    /// What holds in every state of a read of a published Asset.
    spec fn is_reached(
        self,
        descriptor: AssetDescriptorView,
        bytes: Seq<u8>,
        state: ReadState,
    ) -> bool {
        let facts = state.facts;
        &&& facts.lookup matches Some(Ok(record)) ==> record is Some && visible_asset(record)
            == Some(descriptor) && record->0.blob_key == blob_name(descriptor.asset_id)
        &&& facts.inspected == Some(BlobKind::Regular) ==> state.key == blob_name(
            descriptor.asset_id,
        )
        &&& facts.sought == Some(true) ==> state.position == self.range.offset
        &&& facts.read is None ==> state.bytes == Seq::<u8>::empty()
        &&& facts.read == Some(true) ==> state.bytes == self.asked_of(bytes)
        &&& facts.read is Some ==> self.range.offset < bytes.len()
        &&& facts.chunk is Some ==> state.total == bytes.len() && self.range.offset <= bytes.len()
    }
}

proof fn lemma_one_step(
    reading: Reading,
    descriptor: AssetDescriptorView,
    bytes: Seq<u8>,
    before: ReadState,
    after: ReadState,
)
    requires
        reading.asset_id == descriptor.asset_id,
        reading.store.holds(descriptor, bytes),
        reading.is_reached(descriptor, bytes, before),
        reading.goes(before, after),
    ensures
        reading.is_reached(descriptor, bytes, after),
{
    law_published_asset_is_read_back(descriptor);
}

proof fn lemma_read_reached(
    reading: Reading,
    descriptor: AssetDescriptorView,
    bytes: Seq<u8>,
    states: Seq<ReadState>,
    i: int,
)
    requires
        reading.asset_id == descriptor.asset_id,
        reading.store.holds(descriptor, bytes),
        reading.goes_through(states),
        0 <= i < states.len(),
    ensures
        reading.is_reached(descriptor, bytes, states[i]),
    decreases i,
{
    if i > 0 {
        lemma_read_reached(reading, descriptor, bytes, states, i - 1);
        assert(reading.goes(states[i - 1], states[i - 1 + 1]));
        lemma_one_step(reading, descriptor, bytes, states[i - 1], states[i]);
    }
}

/// Whatever fails on the way: where a range read of a published Asset is answered, the answer is
/// exactly the bytes of the range that the Asset has, and the length of the Asset.
pub proof fn law_answered_read_gives_the_stored_bytes(
    reading: Reading,
    descriptor: AssetDescriptorView,
    bytes: Seq<u8>,
    states: Seq<ReadState>,
)
    requires
        reading.asset_id == descriptor.asset_id,
        reading.store.holds(descriptor, bytes),
        reading.goes_through(states),
        read_decision(reading.asset_id, reading.range, states.last().facts)
            == ReadDecisionView::Answer,
    ensures
        reading.range.offset <= bytes.len(),
        states.last().bytes == bytes.subrange(
            reading.range.offset as int,
            reading.range.offset + served_length(reading.range, bytes.len() as int),
        ),
        states.last().total == bytes.len(),
{
    lemma_read_reached(reading, descriptor, bytes, states, states.len() - 1);
    assert(states.last() == states[states.len() - 1]);
    if reading.range.offset == bytes.len() {
        assert(reading.asked_of(bytes) =~= Seq::<u8>::empty());
    }
}

/// A range read of a published Asset that begins inside it or right at its end is answered, unless
/// a step of it fails: where the end of the range and the number of bytes can be told, and the
/// chunk of these bytes is accepted.
pub proof fn law_undisturbed_read_is_answered(
    reading: Reading,
    descriptor: AssetDescriptorView,
    bytes: Seq<u8>,
)
    requires
        reading.asset_id == descriptor.asset_id,
        reading.store.holds(descriptor, bytes),
        reading.range.offset <= bytes.len(),
        reading.range.offset < bytes.len() ==> reading.range.offset + reading.range.length
            <= u64::MAX && served_length(reading.range, bytes.len() as int) <= usize::MAX,
        (reading.accepts)(
            reading.range.offset as int,
            reading.asked_of(bytes),
            bytes.len() as int,
        ),
    ensures
        read_decision(reading.asset_id, reading.range, reading.undisturbed(6).facts)
            == ReadDecisionView::Answer,
        reading.undisturbed(6).bytes == reading.asked_of(bytes),
        reading.undisturbed(6).total == bytes.len(),
{
    reveal_with_fuel(Reading::undisturbed, 7);
    law_published_asset_is_read_back(descriptor);
    if reading.range.offset == bytes.len() {
        assert(reading.asked_of(bytes) =~= Seq::<u8>::empty());
    }
}

/// A change of a store.
pub enum Change {
    /// An ingest, with the states that it goes through.
    Ingest(Ingest, Seq<IngestState>),
    /// A recovery when the store is opened again, from the records of its rows, with what it
    /// leaves.
    Recovery(Seq<AssetRecordView>, StoreView),
}

/// Whether a recovery from the records of the rows can lead from one store to the other: it removes
/// nothing but staged rows and orphan blobs, and may end before it removed them all.
pub open spec fn can_recover(
    records: Seq<AssetRecordView>,
    before: StoreView,
    after: StoreView,
) -> bool {
    &&& forall|id: Seq<char>| #[trigger]
        before.row(id) is Some ==> records.contains(asset_row_record(before.row(id)->0))
    &&& forall|id: Seq<char>| #[trigger]
        after.row(id) != before.row(id) ==> after.row(id) is None && staged_ids(records).contains(id)
            && before.row(id)->0.publication_state == STAGED@
    &&& forall|key: Seq<char>| #[trigger]
        after.blob(key) != before.blob(key) ==> after.blob(key) is None && is_orphan_blob(
            published_records(records),
            key,
        )
}

impl Change {
    /// Whether the change can be made on the store.
    pub open spec fn is_made_on(self, store: StoreView) -> bool {
        match self {
            Change::Ingest(ingest, states) => 0 <= ingest.descriptor.byte_length
                && ingest.goes_through(store, states),
            Change::Recovery(records, after) => can_recover(records, store, after),
        }
    }

    /// The store that the change leaves.
    pub open spec fn left(self) -> StoreView {
        match self {
            Change::Ingest(_, states) => states.last().store,
            Change::Recovery(_, after) => after,
        }
    }
}

/// The store after changes that were made on it.
pub open spec fn store_after(store: StoreView, changes: Seq<Change>) -> StoreView {
    if changes.len() == 0 {
        store
    } else {
        changes.last().left()
    }
}

/// Whether the changes follow each other, beginning on the store.
pub open spec fn are_made_on(store: StoreView, changes: Seq<Change>) -> bool {
    forall|i: int|
        0 <= i < changes.len() ==> (#[trigger] changes[i]).is_made_on(
            store_after(store, changes.take(i)),
        )
}

/// A published Asset stays as it is, with its bytes, when the store is opened again, whether its
/// recovery comes to its end or not.
pub proof fn law_recovery_keeps_published_bytes(
    descriptor: AssetDescriptorView,
    bytes: Seq<u8>,
    records: Seq<AssetRecordView>,
    before: StoreView,
    after: StoreView,
)
    requires
        before.holds(descriptor, bytes),
        can_recover(records, before, after),
    ensures
        after.holds(descriptor, bytes),
{
    let key = blob_name(descriptor.asset_id);
    law_published_asset_is_read_back(descriptor);
    assert(before.row(descriptor.asset_id) is Some);
    let record = asset_row_record(before.row(descriptor.asset_id)->0);
    let i = choose|i: int| 0 <= i < records.len() && records[i] == record;
    assert(records[i].state == PublicationState::Published && records[i].blob_key == key);
    law_recovery_keeps_exactly_the_published_blobs(records, key);
    reveal_strlit("staged");
    reveal_strlit("published");
    assert(STAGED@.len() != PUBLISHED@.len());
    assert(after.row(descriptor.asset_id) == before.row(descriptor.asset_id));
    assert(after.blob(key) == before.blob(key));
}

proof fn lemma_bytes_stay(
    descriptor: AssetDescriptorView,
    bytes: Seq<u8>,
    store: StoreView,
    changes: Seq<Change>,
)
    requires
        store.holds(descriptor, bytes),
        are_made_on(store, changes),
    ensures
        store_after(store, changes).holds(descriptor, bytes),
    decreases changes.len(),
{
    if changes.len() > 0 {
        let init = changes.drop_last();
        assert(init =~= changes.take(changes.len() - 1));
        assert forall|i: int| 0 <= i < init.len() implies (#[trigger] init[i]).is_made_on(
            store_after(store, init.take(i)),
        ) by {
            assert(init.take(i) =~= changes.take(i));
            assert(changes[i] == init[i]);
        }
        lemma_bytes_stay(descriptor, bytes, store, init);
        let before = store_after(store, init);
        assert(changes[changes.len() - 1].is_made_on(before));
        match changes.last() {
            Change::Ingest(ingest, states) => {
                law_published_bytes_stay(
                    descriptor,
                    bytes,
                    ingest,
                    before,
                    states,
                    states.len() - 1,
                );
            },
            Change::Recovery(records, after) => {
                law_recovery_keeps_published_bytes(descriptor, bytes, records, before, after);
            },
        }
    }
}

/// What a range read gives back of an ingest: after an ingest that inserted an Asset, and whatever
/// ingests and recoveries came later, an answered read of a range of the Asset gives exactly the
/// bytes of the source of that ingest that lie in the range, and the length of the source.
pub proof fn law_ingested_bytes_are_read_back(
    ingest: Ingest,
    store: StoreView,
    states: Seq<IngestState>,
    later: Seq<Change>,
    reading: Reading,
    reads: Seq<ReadState>,
)
    requires
        0 <= ingest.descriptor.byte_length,
        ingest.goes_through(store, states),
        ingest_decision(ingest.descriptor, states.last().facts) == IngestDecisionView::Done(
            Ok(AssetInsertOutcome::Inserted),
        ),
        are_made_on(states.last().store, later),
        reading.store == store_after(states.last().store, later),
        reading.asset_id == ingest.descriptor.asset_id,
        reading.goes_through(reads),
        read_decision(reading.asset_id, reading.range, reads.last().facts)
            == ReadDecisionView::Answer,
    ensures
        ({
            let total = ingest.source().len() as int;
            let offset = reading.range.offset as int;
            &&& offset <= total
            &&& reads.last().bytes == ingest.source().subrange(
                offset,
                offset + served_length(reading.range, total),
            )
            &&& reads.last().total == total
        }),
{
    law_inserted_asset_is_stored(ingest, store, states);
    lemma_bytes_stay(ingest.descriptor, ingest.source(), states.last().store, later);
    law_answered_read_gives_the_stored_bytes(reading, ingest.descriptor, ingest.source(), reads);
}

} // verus!
