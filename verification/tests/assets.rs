//! The persistent local Asset store.

use std::collections::BTreeMap;

use orbitrelay::asset_ingest::{
    ingest, IngestAction, IngestDecision, IngestFacts, StagedFile, StagingWriter,
};
use orbitrelay::asset_read::{
    read_range, AssetByteRange, AssetReadError, BlobKind, ReadDecision, ReadFacts,
};
use orbitrelay::asset_recovery::{
    load_all_records, orphan_blob, plan_recovery, recover_storage, verify_blob, BlobDecision,
    BlobFacts, BlobInspection, MoveOutcome, Quarantine, QuarantineStep, RecoveryFacts,
    RecoveryStep,
};
use orbitrelay::asset_store::{
    blob_key, check_queue_capacity, check_schema_version, decode_row, get_asset, lookup_asset,
    map_filesystem_error, map_send_error, map_sqlite_error, publish_asset, stage_asset,
    AssetDescriptor, AssetInsertOutcome, AssetRecord, LocalAssetStoreError, PublicationState,
    RawAssetRow, StageStep, PUBLISHED, STAGED,
};
use orbitrelay::asset_store_open::{initialize_storage, OpenFacts, OpenStage, OpenStep};
use orbitrelay::digest::{digest, ContentDigest};
use orbitrelay::event_store::{SendFault, SqliteCode};

fn hex(bytes: &[u8]) -> String {
    bytes.iter().map(|byte| format!("{byte:02x}")).collect()
}

fn hash_of(bytes: &[u8]) -> String {
    hex(&digest(bytes).expect("digest"))
}

fn descriptor(id: &str, bytes: &[u8]) -> AssetDescriptor {
    AssetDescriptor {
        asset_id: id.to_owned(),
        media_type: "application/octet-stream".to_owned(),
        byte_length: bytes.len() as u64,
        content_hash: hash_of(bytes),
        original_filename: Some("payload.bin".to_owned()),
    }
}

fn record(id: &str, bytes: &[u8], state: PublicationState) -> AssetRecord {
    AssetRecord { descriptor: descriptor(id, bytes), blob_key: blob_key(id), state }
}

fn row(id: &str, bytes: &[u8], state: &str) -> RawAssetRow {
    RawAssetRow {
        asset_id: Some(id.to_owned()),
        media_type: "application/octet-stream".to_owned(),
        byte_length: bytes.len() as i64,
        content_hash: Some(hash_of(bytes)),
        original_filename: Some("payload.bin".to_owned()),
        blob_key: blob_key(id),
        publication_state: state.to_owned(),
        accepted: true,
    }
}

/// Runs an ingest against a list of rows, without files.
fn run_ingest(
    rows: &mut Vec<RawAssetRow>,
    asset: &AssetDescriptor,
    source: &[u8],
) -> (Result<AssetInsertOutcome, LocalAssetStoreError>, Vec<IngestAction>) {
    let stored = |rows: &[RawAssetRow]| {
        rows.iter()
            .find(|row| row.asset_id.as_ref() == Some(&asset.asset_id))
            .map(|row| RawAssetRow {
                asset_id: row.asset_id.clone(),
                media_type: row.media_type.clone(),
                byte_length: row.byte_length,
                content_hash: row.content_hash.clone(),
                original_filename: row.original_filename.clone(),
                blob_key: row.blob_key.clone(),
                publication_state: row.publication_state.clone(),
                accepted: row.accepted,
            })
    };
    let key = blob_key(&asset.asset_id);
    let mut facts = IngestFacts::new();
    let mut actions = Vec::new();
    loop {
        match ingest(asset, &facts) {
            IngestDecision::Done(outcome) => return (outcome, actions),
            IngestDecision::Act(action) => {
                actions.push(action);
                match action {
                    IngestAction::LookUp => facts.lookup = Some(lookup_asset(stored(rows))),
                    IngestAction::WriteStaging => {
                        let mut writer = StagingWriter::new();
                        let mut result = Ok(());
                        for chunk in source.chunks(3) {
                            result = writer.receive(asset, chunk);
                            if result.is_err() {
                                break;
                            }
                        }
                        facts.write = Some(result.map(|()| {
                            let written = writer.finish();
                            StagedFile { length: written.length, hash: hex(&written.digest) }
                        }));
                    }
                    IngestAction::StageMetadata => {
                        facts.stage = Some(match stage_asset(asset, &key, stored(rows)) {
                            Ok(StageStep::Existing) => Ok(AssetInsertOutcome::Existing),
                            Ok(StageStep::Insert(row)) => {
                                rows.push(row);
                                Ok(AssetInsertOutcome::Inserted)
                            }
                            Err(error) => Err(error),
                        });
                    }
                    IngestAction::MoveBlob => facts.move_blob = Some(Ok(())),
                    IngestAction::PublishMetadata => {
                        let result = publish_asset(asset, &key, stored(rows));
                        if result.is_ok() {
                            for row in rows.iter_mut() {
                                if row.asset_id.as_ref() == Some(&asset.asset_id) {
                                    row.publication_state = PUBLISHED.to_owned();
                                }
                            }
                        }
                        facts.publish = Some(result);
                    }
                    IngestAction::QuarantineBlob => facts.quarantined = true,
                    IngestAction::RemoveStagedMetadata => facts.unstaged = true,
                    IngestAction::RemoveStagingFile => facts.file_removed = Some(Ok(())),
                }
            }
        }
    }
}

/// A store of rows and blobs in memory.
struct Memory {
    rows: Vec<RawAssetRow>,
    blobs: BTreeMap<String, Vec<u8>>,
}

impl Memory {
    fn ingest(
        &mut self,
        asset: &AssetDescriptor,
        source: &[u8],
    ) -> Result<AssetInsertOutcome, LocalAssetStoreError> {
        let (outcome, actions) = run_ingest(&mut self.rows, asset, source);
        if actions.contains(&IngestAction::MoveBlob) {
            self.blobs.insert(blob_key(&asset.asset_id), source.to_vec());
        }
        outcome
    }

    fn reopen(&mut self) {
        let rows = self.rows.drain(..).map(Some).collect();
        let plan = plan_recovery(load_all_records(rows).expect("records"));
        self.blobs.retain(|name, _| !orphan_blob(&plan.published, name));
        for record in plan.published {
            let bytes = &self.blobs[&record.blob_key];
            self.rows.push(row(&record.descriptor.asset_id, bytes, PUBLISHED));
        }
    }

    fn read(&self, id: &str, offset: u64, length: u64) -> Result<(Vec<u8>, u64), AssetReadError> {
        let mut facts = ReadFacts::new();
        let mut blob = None;
        let mut start = 0;
        let mut bytes = Vec::new();
        let mut total = 0;
        loop {
            match read_range(id, AssetByteRange { offset, length }, &facts) {
                ReadDecision::LookUp => {
                    let stored = self.rows.iter().find(|row| row.asset_id.as_deref() == Some(id));
                    facts.lookup = Some(Ok(stored.map(|row| AssetRecord {
                        descriptor: AssetDescriptor {
                            asset_id: id.to_owned(),
                            media_type: row.media_type.clone(),
                            byte_length: row.byte_length as u64,
                            content_hash: row.content_hash.clone().expect("hash"),
                            original_filename: row.original_filename.clone(),
                        },
                        blob_key: row.blob_key.clone(),
                        state: PublicationState::parse(&row.publication_state).expect("state"),
                    })));
                }
                ReadDecision::Inspect(name) => {
                    blob = self.blobs.get(&name);
                    facts.inspected = Some(match blob {
                        Some(_) => BlobKind::Regular,
                        None => BlobKind::Uninspected,
                    });
                }
                ReadDecision::Open => facts.opened = Some(blob.is_some()),
                ReadDecision::Seek(offset) => {
                    start = offset as usize;
                    facts.sought = Some(true);
                }
                ReadDecision::Read(length) => {
                    let found = blob.and_then(|blob| blob.get(start..start + length));
                    facts.read = Some(found.is_some());
                    bytes = found.unwrap_or_default().to_vec();
                }
                ReadDecision::MakeChunk { total_length, .. } => {
                    total = total_length;
                    facts.chunk = Some(true);
                }
                ReadDecision::Answer => return Ok((bytes, total)),
                ReadDecision::Fail(error) => return Err(error),
            }
        }
    }
}

#[test]
fn ingested_bytes_are_read_back() {
    let mut store = Memory { rows: Vec::new(), blobs: BTreeMap::new() };
    let bytes = b"0123456789";
    assert_eq!(store.ingest(&descriptor("a", bytes), bytes), Ok(AssetInsertOutcome::Inserted));
    let check = |store: &Memory| {
        assert_eq!(store.read("a", 0, 10), Ok((b"0123456789".to_vec(), 10)));
        assert_eq!(store.read("a", 3, 4), Ok((b"3456".to_vec(), 10)));
        assert_eq!(store.read("a", 7, 100), Ok((b"789".to_vec(), 10)));
        assert_eq!(store.read("a", 10, 5), Ok((Vec::new(), 10)));
        assert_eq!(
            store.read("a", 11, 1),
            Err(AssetReadError::RangeOutOfBounds {
                asset_id: "a".to_owned(),
                offset: 11,
                total_length: 10,
            })
        );
    };
    check(&store);
    assert_eq!(store.ingest(&descriptor("a", bytes), bytes), Ok(AssetInsertOutcome::Existing));
    assert_eq!(
        store.ingest(&descriptor("a", b"other"), b"other"),
        Err(LocalAssetStoreError::AssetConflict { asset_id: "a".to_owned() })
    );
    assert!(store.ingest(&descriptor("b", b"right"), b"wrong").is_err());
    assert_eq!(store.ingest(&descriptor("c", b"more"), b"more"), Ok(AssetInsertOutcome::Inserted));
    check(&store);
    store.blobs.insert("orphan.blob".to_owned(), b"left over".to_vec());
    store.reopen();
    assert_eq!(store.blobs.keys().collect::<Vec<_>>(), ["a.blob", "c.blob"]);
    check(&store);
    assert_eq!(store.read("c", 1, 2), Ok((b"or".to_vec(), 4)));
    assert_eq!(
        store.read("b", 0, 1),
        Err(AssetReadError::NotFound { asset_id: "b".to_owned() })
    );
}

#[test]
fn publication_marker_constant_is_stable() {
    assert_eq!(PUBLISHED, "published");
}

#[test]
fn digests_are_those_of_sha_256() {
    let expected = "ba7816bf8f01cfea414140de5dae2223b00361a396177a9cb410ff61f20015ad";
    assert_eq!(hash_of(b"abc"), expected);
    let mut pieces = ContentDigest::new();
    pieces.update(b"a");
    pieces.update(b"");
    pieces.update(b"bc");
    assert_eq!(hex(&pieces.finish()), expected);
    assert_eq!(
        hex(&ContentDigest::new().finish()),
        "e3b0c44298fc1c149afbf4c8996fb92427ae41e4649b934ca495991b7852b855"
    );
}

#[test]
fn validates_length_hash_and_immutable_conflicts() {
    let mut rows = Vec::new();
    let bytes = b"valid";
    let wrong_length = AssetDescriptor { byte_length: 99, ..descriptor("id", bytes) };
    let (outcome, actions) = run_ingest(&mut rows, &wrong_length, bytes);
    assert!(matches!(
        outcome,
        Err(LocalAssetStoreError::LengthMismatch { expected: 99, actual: 5, .. })
    ));
    assert_eq!(
        actions,
        [IngestAction::LookUp, IngestAction::WriteStaging, IngestAction::RemoveStagingFile]
    );
    let too_short = AssetDescriptor { byte_length: 4, ..descriptor("id", bytes) };
    assert!(matches!(
        run_ingest(&mut rows, &too_short, bytes).0,
        Err(LocalAssetStoreError::LengthMismatch { expected: 4, actual: 5, .. })
    ));
    let wrong_hash = AssetDescriptor { content_hash: "00".repeat(32), ..descriptor("id", bytes) };
    assert!(matches!(
        run_ingest(&mut rows, &wrong_hash, bytes).0,
        Err(LocalAssetStoreError::HashMismatch { .. })
    ));
    assert!(rows.is_empty());
    let valid = descriptor("id", bytes);
    let (outcome, actions) = run_ingest(&mut rows, &valid, bytes);
    assert_eq!(outcome, Ok(AssetInsertOutcome::Inserted));
    assert_eq!(
        actions,
        [
            IngestAction::LookUp,
            IngestAction::WriteStaging,
            IngestAction::StageMetadata,
            IngestAction::MoveBlob,
            IngestAction::PublishMetadata,
        ]
    );
    let (outcome, actions) = run_ingest(&mut rows, &valid, bytes);
    assert_eq!(outcome, Ok(AssetInsertOutcome::Existing));
    assert_eq!(actions, [IngestAction::LookUp]);
    let conflict = descriptor("id", b"other");
    assert!(matches!(
        run_ingest(&mut rows, &conflict, b"other").0,
        Err(LocalAssetStoreError::AssetConflict { .. })
    ));
    assert_eq!(rows.len(), 1);
}

#[test]
fn publishes_and_reopens_metadata_bytes_and_ranges() {
    let mut rows = Vec::new();
    let bytes = b"0123456789";
    let asset = descriptor("id", bytes);
    assert_eq!(run_ingest(&mut rows, &asset, bytes).0, Ok(AssetInsertOutcome::Inserted));
    let found = lookup_asset(rows.pop()).expect("lookup");
    assert_eq!(get_asset(Ok(found)), Ok(Some(descriptor("id", bytes))));
    let served = |offset: u64, length: u64| {
        let mut facts = ReadFacts::new();
        let mut start = 0;
        let mut taken = 0;
        loop {
            match read_range("id", AssetByteRange { offset, length }, &facts) {
                ReadDecision::LookUp => {
                    facts.lookup = Some(Ok(Some(record("id", bytes, PublicationState::Published))));
                }
                ReadDecision::Inspect(name) => {
                    assert_eq!(name, "id.blob");
                    facts.inspected = Some(BlobKind::Regular);
                }
                ReadDecision::Open => facts.opened = Some(true),
                ReadDecision::Seek(offset) => {
                    start = offset as usize;
                    facts.sought = Some(true);
                }
                ReadDecision::Read(length) => {
                    taken = length;
                    facts.read = Some(true);
                }
                ReadDecision::MakeChunk { offset: at, total_length } => {
                    assert_eq!((at, total_length), (offset, 10));
                    facts.chunk = Some(true);
                }
                ReadDecision::Answer => return bytes[start..start + taken].to_vec(),
                ReadDecision::Fail(error) => panic!("unexpected {error:?}"),
            }
        }
    };
    assert_eq!(served(2, 4), b"2345");
    assert_eq!(served(8, 8), b"89");
    assert_eq!(served(10, 1), b"");
}

#[test]
fn distinguishes_zero_byte_and_missing_assets() {
    let range = AssetByteRange { offset: 0, length: 1 };
    let facts = ReadFacts {
        lookup: Some(Ok(Some(record("id", b"", PublicationState::Published)))),
        inspected: Some(BlobKind::Regular),
        opened: Some(true),
        ..ReadFacts::new()
    };
    assert_eq!(
        read_range("id", range, &facts),
        ReadDecision::MakeChunk { offset: 0, total_length: 0 }
    );
    for lookup in [Ok(None), Ok(Some(record("id", b"x", PublicationState::Staged)))] {
        let facts = ReadFacts { lookup: Some(lookup), ..ReadFacts::new() };
        assert_eq!(
            read_range("id", range, &facts),
            ReadDecision::Fail(AssetReadError::NotFound { asset_id: "id".to_owned() })
        );
    }
}

#[test]
fn failed_reads_tell_only_safe_details() {
    let range = AssetByteRange { offset: 1, length: 2 };
    let read = |change: fn(&mut ReadFacts)| {
        let mut facts = ReadFacts {
            lookup: Some(Ok(Some(record("id", b"0123", PublicationState::Published)))),
            inspected: Some(BlobKind::Regular),
            opened: Some(true),
            sought: Some(true),
            read: Some(true),
            chunk: Some(true),
        };
        change(&mut facts);
        match read_range("id", range, &facts) {
            ReadDecision::Fail(AssetReadError::Unavailable { detail }) => detail,
            other => panic!("unexpected {other:?}"),
        }
    };
    assert_eq!(
        read(|facts| {
            facts.lookup = Some(Err(LocalAssetStoreError::AssetConflict {
                asset_id: "secret".to_owned(),
            }));
        }),
        "Asset identity conflict"
    );
    assert_eq!(
        read(|facts| facts.inspected = Some(BlobKind::Uninspected)),
        "published Asset blob could not be inspected"
    );
    assert_eq!(
        read(|facts| facts.inspected = Some(BlobKind::NotRegular)),
        "published Asset blob is not a regular file"
    );
    assert_eq!(
        read(|facts| facts.opened = Some(false)),
        "published Asset blob could not be opened"
    );
    assert_eq!(read(|facts| facts.sought = Some(false)), "published Asset seek failed");
    assert_eq!(read(|facts| facts.read = Some(false)), "published Asset read was truncated");
    assert_eq!(
        read(|facts| facts.chunk = Some(false)),
        "published Asset produced an invalid range chunk"
    );
    let facts = ReadFacts {
        lookup: Some(Ok(Some(record("id", b"0123", PublicationState::Published)))),
        ..ReadFacts::new()
    };
    assert_eq!(
        read_range("id", AssetByteRange { offset: 5, length: 1 }, &facts),
        ReadDecision::Fail(AssetReadError::RangeOutOfBounds {
            asset_id: "id".to_owned(),
            offset: 5,
            total_length: 4,
        })
    );
    let open = ReadFacts {
        inspected: Some(BlobKind::Regular),
        opened: Some(true),
        ..facts
    };
    assert_eq!(
        read_range("id", AssetByteRange { offset: 1, length: u64::MAX }, &open),
        ReadDecision::Fail(AssetReadError::Unavailable {
            detail: "Asset range overflowed unexpectedly".to_owned(),
        })
    );
}

#[test]
fn published_blob_corruption_fails_reopen() {
    let asset = descriptor("id", b"corruption");
    let verdict = |inspected: BlobInspection, content: Option<&[u8]>| {
        let facts = BlobFacts {
            inspected: Some(inspected),
            opened: Some(true),
            hash: Some(content.map(hash_of)),
        };
        match verify_blob(&asset, &facts) {
            BlobDecision::Done(Ok(())) => None,
            BlobDecision::Done(Err(LocalAssetStoreError::Corruption { detail })) => Some(detail),
            other => panic!("unexpected {other:?}"),
        }
    };
    assert_eq!(
        verdict(BlobInspection::Missing, None),
        Some("published Asset blob is missing")
    );
    assert_eq!(
        verdict(BlobInspection::NotRegular, None),
        Some("published Asset blob is not a regular file")
    );
    assert_eq!(
        verdict(BlobInspection::Regular(5), Some(b"short")),
        Some("published Asset blob length does not match metadata")
    );
    assert_eq!(
        verdict(BlobInspection::Regular(10), Some(b"corruptioN")),
        Some("published Asset blob hash does not match metadata")
    );
    assert_eq!(
        verdict(BlobInspection::Regular(10), None),
        Some("published Asset blob could not be read")
    );
    assert_eq!(verdict(BlobInspection::Regular(10), Some(b"corruption")), None);
    let unopened = BlobFacts {
        inspected: Some(BlobInspection::Regular(10)),
        opened: Some(false),
        hash: None,
    };
    assert!(matches!(
        verify_blob(&asset, &unopened),
        BlobDecision::Done(Err(LocalAssetStoreError::Corruption { .. }))
    ));
}

#[test]
fn staged_and_orphan_files_are_not_published_on_reopen() {
    let records = load_all_records(vec![
        Some(row("kept", b"kept", PUBLISHED)),
        Some(row("stale", b"stale", STAGED)),
    ])
    .expect("records");
    let plan = plan_recovery(records);
    assert_eq!(plan.staged_ids, vec!["stale".to_owned()]);
    assert_eq!(plan.published.len(), 1);
    assert!(orphan_blob(&plan.published, "orphan.blob"));
    assert!(orphan_blob(&plan.published, "stale.blob"));
    assert!(!orphan_blob(&plan.published, "kept.blob"));
    let mut facts = RecoveryFacts {
        verified: 0,
        failure: None,
        unstaged: None,
        staging_cleared: None,
        orphans_cleared: None,
    };
    assert!(matches!(recover_storage(&plan, &facts), RecoveryStep::Verify(0)));
    facts.verified = 1;
    assert!(matches!(recover_storage(&plan, &facts), RecoveryStep::RemoveStaged));
    facts.unstaged = Some(Ok(()));
    assert!(matches!(recover_storage(&plan, &facts), RecoveryStep::ClearStaging));
    facts.staging_cleared = Some(Ok(()));
    assert!(matches!(recover_storage(&plan, &facts), RecoveryStep::ClearOrphans));
    facts.orphans_cleared = Some(Ok(()));
    assert!(matches!(recover_storage(&plan, &facts), RecoveryStep::Done));
    facts.verified = 0;
    facts.failure = Some(LocalAssetStoreError::Corruption { detail: "bad" });
    assert!(matches!(
        recover_storage(&plan, &facts),
        RecoveryStep::Fail(LocalAssetStoreError::Corruption { detail: "bad" })
    ));
}

#[test]
fn quarantine_gives_up_after_eight_names() {
    let mut quarantine = Quarantine::new();
    for _ in 0..7 {
        assert!(matches!(
            quarantine.after_attempt(MoveOutcome::NameTaken, "detail"),
            QuarantineStep::TryAnotherName
        ));
    }
    assert!(matches!(
        quarantine.after_attempt(MoveOutcome::NameTaken, "detail"),
        QuarantineStep::Fail(LocalAssetStoreError::Filesystem {
            detail: "Asset quarantine name allocation failed"
        })
    ));
    assert!(matches!(
        Quarantine::new().after_attempt(MoveOutcome::Failed, "detail"),
        QuarantineStep::Fail(LocalAssetStoreError::Filesystem { detail: "detail" })
    ));
    assert!(matches!(
        Quarantine::new().after_attempt(MoveOutcome::Moved, "detail"),
        QuarantineStep::Done
    ));
}

#[test]
fn schema_and_metadata_corruption_fail_safely() {
    assert!(matches!(
        check_schema_version(&Some("999".to_owned())),
        Err(LocalAssetStoreError::Corruption { .. })
    ));
    let malformed = RawAssetRow {
        asset_id: None,
        media_type: "application/octet-stream".to_owned(),
        byte_length: -1,
        content_hash: None,
        original_filename: None,
        blob_key: "../escape".to_owned(),
        publication_state: "published".to_owned(),
        accepted: true,
    };
    assert!(matches!(
        load_all_records(vec![Some(malformed)]),
        Err(LocalAssetStoreError::Corruption { detail: "Asset metadata identity is invalid" })
    ));
    let detail = |row: RawAssetRow| match decode_row(row) {
        Err(LocalAssetStoreError::Corruption { detail }) => detail,
        other => panic!("unexpected {other:?}"),
    };
    assert_eq!(
        detail(RawAssetRow { byte_length: -1, ..row("id", b"x", PUBLISHED) }),
        "Asset metadata byte length is invalid"
    );
    assert_eq!(
        detail(RawAssetRow { content_hash: None, ..row("id", b"x", PUBLISHED) }),
        "Asset metadata content hash is invalid"
    );
    assert_eq!(
        detail(RawAssetRow { accepted: false, ..row("id", b"x", PUBLISHED) }),
        "Asset metadata descriptor is invalid"
    );
    assert_eq!(
        detail(RawAssetRow { blob_key: "../escape".to_owned(), ..row("id", b"x", PUBLISHED) }),
        "Asset metadata blob key is invalid"
    );
    assert_eq!(detail(row("id", b"x", "unknown")), "unknown Asset publication state");
    assert!(matches!(
        load_all_records(vec![None]),
        Err(LocalAssetStoreError::Corruption { detail: "Asset metadata row could not be read" })
    ));
    let mut facts = OpenFacts::new();
    assert!(matches!(
        initialize_storage(&facts, "fresh"),
        OpenStage::Needs(OpenStep::CreateRoot)
    ));
    facts.root = Some(true);
    facts.blobs = Some(false);
    assert!(matches!(
        initialize_storage(&facts, "fresh"),
        OpenStage::Failed(LocalAssetStoreError::Filesystem {
            detail: "Asset data directory could not be created"
        })
    ));
}

#[test]
fn reopened_asset_store_keeps_its_identity() {
    let open = |stored: Option<Option<&str>>, fresh: &str| {
        let facts = OpenFacts {
            root: Some(true),
            blobs: Some(true),
            staging: Some(true),
            quarantine: Some(true),
            opened: Some(Ok(())),
            foreign_keys: Some(Ok(())),
            journal: Some(Ok(())),
            synchronous: Some(Ok(())),
            busy_timeout: Some(Ok(())),
            schema: Some(Ok(())),
            version: Some(Ok(Some("1".to_owned()))),
            identity: Some(Ok(stored.map(|text| text.map(str::to_owned)))),
            identity_created: Some(Ok(())),
            report: Some(Some("ok".to_owned())),
            ..OpenFacts::new()
        };
        match initialize_storage(&facts, fresh) {
            OpenStage::Opened(identity) => Ok(identity),
            OpenStage::Failed(error) => Err(error),
            other => panic!("unexpected {other:?}"),
        }
    };
    let first = open(None, "fresh").expect("open");
    assert_eq!(first, "fresh");
    assert_eq!(open(Some(Some(&first)), "another"), Ok(first));
    assert_eq!(
        open(Some(None), "fresh"),
        Err(LocalAssetStoreError::Corruption {
            detail: "Asset physical store identity is malformed"
        })
    );
}

#[test]
fn queue_capacity_zero_is_rejected() {
    assert_eq!(check_queue_capacity(0), Err(LocalAssetStoreError::InvalidQueueCapacity));
    assert_eq!(check_queue_capacity(1), Ok(()));
}

#[test]
fn an_unfinished_ingest_is_not_disturbed() {
    let asset = descriptor("id", b"bytes");
    assert!(matches!(
        stage_asset(&asset, "id.blob", Some(row("id", b"bytes", STAGED))),
        Err(LocalAssetStoreError::AssetInProgress { .. })
    ));
    assert!(matches!(
        publish_asset(&asset, "id.blob", None),
        Err(LocalAssetStoreError::Corruption {
            detail: "Asset staged metadata disappeared before publish"
        })
    ));
    assert!(matches!(
        publish_asset(&asset, "id.blob", Some(row("id", b"bytes", PUBLISHED))),
        Err(LocalAssetStoreError::Corruption {
            detail: "Asset publication metadata changed before publish"
        })
    ));
    assert_eq!(publish_asset(&asset, "id.blob", Some(row("id", b"bytes", STAGED))), Ok(()));
}

#[test]
fn failed_steps_of_an_ingest_are_taken_back() {
    let asset = descriptor("id", b"bytes");
    let written = || {
        Some(Ok(StagedFile { length: 5, hash: hash_of(b"bytes") }))
    };
    let mut facts = IngestFacts {
        lookup: Some(Ok(None)),
        write: written(),
        stage: Some(Ok(AssetInsertOutcome::Inserted)),
        move_blob: Some(Err(true)),
        ..IngestFacts::new()
    };
    assert!(matches!(
        ingest(&asset, &facts),
        IngestDecision::Act(IngestAction::RemoveStagedMetadata)
    ));
    facts.unstaged = true;
    assert!(matches!(
        ingest(&asset, &facts),
        IngestDecision::Act(IngestAction::RemoveStagingFile)
    ));
    facts.file_removed = Some(Ok(()));
    assert!(matches!(
        ingest(&asset, &facts),
        IngestDecision::Done(Err(LocalAssetStoreError::Filesystem {
            detail: "Asset blob destination already exists"
        }))
    ));
    facts.file_removed = Some(Err(LocalAssetStoreError::Filesystem {
        detail: "temporary Asset blob cleanup failed",
    }));
    assert!(matches!(
        ingest(&asset, &facts),
        IngestDecision::Done(Err(LocalAssetStoreError::Filesystem {
            detail: "temporary Asset blob cleanup failed"
        }))
    ));
    let mut facts = IngestFacts {
        lookup: Some(Ok(None)),
        write: written(),
        stage: Some(Ok(AssetInsertOutcome::Inserted)),
        move_blob: Some(Ok(())),
        publish: Some(Err(LocalAssetStoreError::BackendFailure { detail: "down" })),
        ..IngestFacts::new()
    };
    assert!(matches!(
        ingest(&asset, &facts),
        IngestDecision::Act(IngestAction::QuarantineBlob)
    ));
    facts.quarantined = true;
    assert!(matches!(
        ingest(&asset, &facts),
        IngestDecision::Act(IngestAction::RemoveStagedMetadata)
    ));
    facts.unstaged = true;
    assert!(matches!(
        ingest(&asset, &facts),
        IngestDecision::Done(Err(LocalAssetStoreError::BackendFailure { detail: "down" }))
    ));
    let huge = AssetDescriptor { byte_length: 1 << 63, ..descriptor("id", b"") };
    assert!(matches!(
        ingest(&huge, &IngestFacts::new()),
        IngestDecision::Done(Err(LocalAssetStoreError::LengthOverflow { .. }))
    ));
}

#[test]
fn asset_store_errors_are_told_in_words() {
    let errors = [
        LocalAssetStoreError::InvalidQueueCapacity,
        LocalAssetStoreError::LengthOverflow { asset_id: "a".to_owned(), length: 7 },
        LocalAssetStoreError::LengthMismatch { asset_id: "a".to_owned(), expected: 10, actual: 9 },
        LocalAssetStoreError::HashMismatch {
            asset_id: "a".to_owned(),
            expected: "x".to_owned(),
            actual: "y".to_owned(),
        },
        LocalAssetStoreError::AssetConflict { asset_id: "a".to_owned() },
        LocalAssetStoreError::AssetInProgress { asset_id: "a".to_owned() },
        LocalAssetStoreError::BackendUnavailable { detail: "d" },
        LocalAssetStoreError::BackendFailure { detail: "d" },
        LocalAssetStoreError::Filesystem { detail: "d" },
        LocalAssetStoreError::Corruption { detail: "d" },
    ];
    let messages: Vec<_> = errors.iter().map(|error| error.message()).collect();
    assert_eq!(
        messages,
        vec![
            "asset metadata command queue capacity must be greater than zero",
            "asset a length 7 cannot be represented by SQLite",
            "asset a length mismatch: expected 10, actual 9",
            "asset a content hash mismatch",
            "asset a conflicts with immutable existing content",
            "asset a has an unfinished ingest",
            "asset metadata backend unavailable: d",
            "asset metadata backend failure: d",
            "asset filesystem operation failed: d",
            "asset persistence corruption: d",
        ]
    );
    let details: Vec<_> = errors.iter().map(|error| error.safe_detail()).collect();
    assert_eq!(
        details,
        vec![
            "invalid Asset metadata configuration",
            "Asset length overflow",
            "Asset length mismatch",
            "Asset content hash mismatch",
            "Asset identity conflict",
            "Asset ingest is in progress",
            "d",
            "d",
            "d",
            "d",
        ]
    );
    for error in &errors {
        assert_eq!(&error.copy(), error);
    }
    assert_eq!(map_filesystem_error(false).safe_detail(), "Asset blob rename failed");
    assert_eq!(
        map_send_error(SendFault::Full).safe_detail(),
        "Asset metadata command queue is full"
    );
    assert_eq!(
        map_send_error(SendFault::Closed).safe_detail(),
        "Asset metadata worker is unavailable"
    );
    assert_eq!(
        map_sqlite_error("lookup failed", SqliteCode::DatabaseLocked).safe_detail(),
        "Asset metadata SQLite backend is busy"
    );
    assert_eq!(
        map_sqlite_error("lookup failed", SqliteCode::Other),
        LocalAssetStoreError::BackendFailure { detail: "lookup failed" }
    );
}
