//! The persistent catalog of Documents and Canvases.

use orbitrelay::catalog::{
    check_integrity_report, check_physical_store_id, check_queue_capacity, check_schema_version,
    default_bootstrap_binding_key, document_type_name, load_binding, load_canvas, load_document,
    load_pages, map_send_error, map_sqlite, parse_document_type, BindingRow, BootstrapBinding,
    CanvasDescriptor, CanvasRow, CatalogPublishOutcome, CatalogStoreError, DocumentDescriptor,
    DocumentRow, DocumentType, PageDescriptor, PageRow,
};
use orbitrelay::catalog_open::{initialize_storage, OpenFacts, OpenStage, OpenStep};
use orbitrelay::catalog_publish::{
    canvas_row, document_ids_collide, document_row, list_documents, publish_document,
    publish_standalone, publish_standalone_with_binding, store_binding, BindingStep,
    DocumentComposition, ListedDocument, StoredBinding, TakenIds,
};
use orbitrelay::catalog_scan::{scan_integrity, CatalogSnapshot, KeyedCanvas};
use orbitrelay::config::Dimension;
use orbitrelay::event_store::SendFault;
use orbitrelay::text_set::TextSet;

fn length(value: f64) -> Dimension {
    Dimension { bits: value.to_bits() }
}

fn canvas(id: &str, session: &str, width: f64, height: f64, layers: &[&str]) -> CanvasDescriptor {
    CanvasDescriptor::new(
        id.to_owned(),
        session.to_owned(),
        length(width),
        length(height),
        layer_set(layers),
        layers[0].to_owned(),
        true,
    )
    .expect("canvas")
}

fn layer_set(layers: &[&str]) -> TextSet {
    let mut layer_ids = TextSet::new();
    for layer in layers {
        layer_ids = layer_ids.insert((*layer).to_owned());
    }
    layer_ids
}

fn page(id: &str, index: u32, width: f64, height: f64, rotation: u16) -> PageDescriptor {
    PageDescriptor {
        page_id: format!("page-{id}"),
        page_index: index,
        width: length(width),
        height: length(height),
        rotation,
        overlay_canvas_id: id.to_owned(),
    }
}

fn document(id: &str, title: &str, pages: Vec<PageDescriptor>) -> DocumentDescriptor {
    DocumentDescriptor::new(
        id.to_owned(),
        "session".to_owned(),
        DocumentType::Pdf,
        "asset".to_owned(),
        title.to_owned(),
        pages,
        true,
    )
    .expect("document")
}

fn two_pages(title: &str) -> DocumentComposition {
    DocumentComposition {
        document: document(
            "document",
            title,
            vec![page("c0", 0, 10.0, 20.0, 0), page("c1", 1, 30.0, 40.0, 90)],
        ),
        canvases: vec![
            canvas("c0", "session", 10.0, 20.0, &["l0"]),
            canvas("c1", "session", 30.0, 40.0, &["l1", "l2"]),
        ],
    }
}

fn nothing_taken() -> TakenIds {
    TakenIds { document: false, canvas_ids: Vec::new(), layer_ids: Vec::new() }
}

fn stored_canvases(composition: &DocumentComposition) -> Vec<Option<CanvasRow>> {
    composition
        .canvases
        .iter()
        .map(|canvas| Some(canvas_row(canvas).expect("row")))
        .collect()
}

fn snapshot(composition: &DocumentComposition) -> CatalogSnapshot {
    CatalogSnapshot {
        foreign_keys_hold: true,
        documents: vec![document_row(&composition.document, 0).expect("row")],
        canvases: composition
            .canvases
            .iter()
            .map(|canvas| KeyedCanvas {
                key: canvas.canvas_id().to_owned(),
                row: canvas_row(canvas).expect("row"),
            })
            .collect(),
        orphan_layers: 0,
        bindings: Vec::new(),
    }
}

fn corruption(result: Result<(), CatalogStoreError>) -> &'static str {
    match result {
        Err(CatalogStoreError::Corruption { detail }) => detail,
        other => panic!("unexpected {other:?}"),
    }
}

/// Opens a catalog whose database holds the given identity and rows, and returns its identity.
fn open(
    stored: &mut Option<String>,
    rows: impl Fn() -> CatalogSnapshot,
    fresh: &str,
) -> Result<String, CatalogStoreError> {
    let mut facts = OpenFacts::new();
    loop {
        match initialize_storage(&facts, fresh) {
            OpenStage::Opened(identity) => return Ok(identity),
            OpenStage::Failed(error) => return Err(error),
            OpenStage::StoreIdentity(identity) => {
                *stored = Some(identity);
                facts.identity_created = Some(Ok(()));
            }
            OpenStage::Needs(step) => match step {
                OpenStep::CreateDirectory => facts.directory = Some(true),
                OpenStep::Open => facts.opened = Some(Ok(())),
                OpenStep::EnableForeignKeys => facts.foreign_keys = Some(Ok(())),
                OpenStep::EnableWriteAheadLog => facts.journal = Some(Ok(())),
                OpenStep::SetSynchronous => facts.synchronous = Some(Ok(())),
                OpenStep::SetBusyTimeout => facts.busy_timeout = Some(Ok(())),
                OpenStep::CreateSchema => facts.schema = Some(Ok(())),
                OpenStep::EnsureVersion => facts.version_ensured = Some(Ok(())),
                OpenStep::FindIdentity => facts.identity_present = Some(Ok(stored.is_some())),
                OpenStep::ReadVersion => facts.version = Some(Ok(Some("1".to_owned()))),
                OpenStep::ReadIdentity => {
                    facts.identity = Some(Ok(stored.as_ref().map(|text| Some(text.clone()))));
                }
                OpenStep::CheckIntegrity => facts.report = Some(Ok("ok".to_owned())),
                OpenStep::Scan => facts.scanned = Some(scan_integrity(rows())),
            },
        }
    }
}

#[test]
fn publishes_reopens_and_preserves_identity() {
    let composition = two_pages("Test");
    let mut stored_identity = None;
    let empty = || CatalogSnapshot {
        foreign_keys_hold: true,
        documents: Vec::new(),
        canvases: Vec::new(),
        orphan_layers: 0,
        bindings: Vec::new(),
    };
    let physical_store_id = open(&mut stored_identity, empty, "fresh").expect("open");
    assert_eq!(physical_store_id, "fresh");
    assert_eq!(
        publish_document(&composition, None, &[], &nothing_taken()),
        Ok(CatalogPublishOutcome::Inserted)
    );
    let row = || document_row(&composition.document, 0).expect("row");
    assert_eq!(
        publish_document(
            &composition,
            Some(row()),
            &stored_canvases(&composition),
            &nothing_taken()
        ),
        Ok(CatalogPublishOutcome::Existing)
    );
    let reopened =
        open(&mut stored_identity, || snapshot(&composition), "another").expect("reopen");
    assert_eq!(reopened, physical_store_id);
    let loaded = load_document(row()).expect("document");
    assert!(loaded.same(&composition.document));
    assert_eq!(loaded, composition.document);
    for canvas in &composition.canvases {
        let loaded = load_canvas(&canvas_row(canvas).expect("row")).expect("canvas");
        assert!(loaded.same(canvas));
    }
}

#[test]
fn standalone_publish_is_idempotent_and_binding_is_stable() {
    let canvas = canvas("canvas", "session", 100.0, 50.0, &["layer"]);
    assert_eq!(
        publish_standalone(&canvas, &None, &[]),
        Ok(CatalogPublishOutcome::Inserted)
    );
    let stored = Some(canvas_row(&canvas).expect("row"));
    assert_eq!(
        publish_standalone(&canvas, &stored, &[]),
        Ok(CatalogPublishOutcome::Existing)
    );
    assert_eq!(
        publish_standalone(&canvas, &None, &["layer".to_owned()]),
        Err(CatalogStoreError::Conflict)
    );
    let binding = BootstrapBinding {
        session_id: "session".to_owned(),
        canvas_id: "canvas".to_owned(),
    };
    assert_eq!(store_binding(&binding, &None), Ok(true));
    let bound = Some(StoredBinding {
        session_id: "session".to_owned(),
        canvas_id: "canvas".to_owned(),
    });
    assert_eq!(store_binding(&binding, &bound), Ok(false));
    let other = Some(StoredBinding {
        session_id: "session".to_owned(),
        canvas_id: "other".to_owned(),
    });
    assert_eq!(store_binding(&binding, &other), Err(CatalogStoreError::Conflict));
    assert_eq!(
        load_binding(BindingRow {
            session_id: Some("session".to_owned()),
            canvas_id: Some("canvas".to_owned()),
        }),
        Ok(binding)
    );
    assert_eq!(default_bootstrap_binding_key(), "development/default_canvas");
}

#[test]
fn standalone_canvas_and_binding_can_commit_atomically() {
    let canvas = CanvasDescriptor::new(
        "canvas".to_owned(),
        "session".to_owned(),
        length(4.0),
        length(5.0),
        layer_set(&["layer"]),
        "another layer".to_owned(),
        true,
    );
    assert!(canvas.is_none());
    let canvas = self::canvas("canvas", "session", 4.0, 5.0, &["layer"]);
    let binding = |session: &str, canvas: &str| BootstrapBinding {
        session_id: session.to_owned(),
        canvas_id: canvas.to_owned(),
    };
    let bound = || {
        Some(StoredBinding {
            session_id: "session".to_owned(),
            canvas_id: "canvas".to_owned(),
        })
    };
    let stored = Some(canvas_row(&canvas).expect("row"));
    let right = binding("session", "canvas");
    let step = publish_standalone_with_binding(&canvas, &right, &None, &None);
    assert_eq!(step, Ok(BindingStep::InsertAndBind));
    assert_eq!(BindingStep::InsertAndBind.outcome(), CatalogPublishOutcome::Inserted);
    let step = publish_standalone_with_binding(&canvas, &right, &None, &stored);
    assert_eq!(step, Ok(BindingStep::BindExisting));
    assert_eq!(BindingStep::BindExisting.outcome(), CatalogPublishOutcome::Existing);
    let step = publish_standalone_with_binding(&canvas, &right, &bound(), &stored);
    assert_eq!(step, Ok(BindingStep::AlreadyBound));
    assert_eq!(BindingStep::AlreadyBound.outcome(), CatalogPublishOutcome::Existing);
    assert_eq!(
        publish_standalone_with_binding(&canvas, &right, &bound(), &None),
        Err(CatalogStoreError::Corruption {
            detail: "bootstrap binding references missing Canvas"
        })
    );
    for wrong in [binding("other", "canvas"), binding("session", "other")] {
        assert_eq!(
            publish_standalone_with_binding(&canvas, &wrong, &None, &None),
            Err(CatalogStoreError::Conflict)
        );
    }
    let larger = self::canvas("canvas", "session", 5.0, 5.0, &["layer"]);
    assert_eq!(
        publish_standalone_with_binding(&larger, &right, &None, &stored),
        Err(CatalogStoreError::Conflict)
    );
}

#[test]
fn schema_too_new_is_rejected() {
    let gate = |value: &str| check_schema_version(&Some(value.to_owned()));
    assert!(matches!(gate("99"), Err(CatalogStoreError::Schema { .. })));
    assert_eq!(
        gate("99"),
        Err(CatalogStoreError::Schema { detail: "schema version is newer than this adapter" })
    );
    assert_eq!(
        gate("0"),
        Err(CatalogStoreError::Schema { detail: "schema migration is required" })
    );
    assert_eq!(gate("1"), Ok(()));
    assert_eq!(
        gate("one"),
        Err(CatalogStoreError::Corruption { detail: "malformed catalog schema version" })
    );
    assert_eq!(
        check_schema_version(&None),
        Err(CatalogStoreError::Corruption { detail: "missing catalog schema version" })
    );
    let facts = OpenFacts {
        directory: Some(true),
        opened: Some(Ok(())),
        foreign_keys: Some(Ok(())),
        journal: Some(Ok(())),
        synchronous: Some(Ok(())),
        busy_timeout: Some(Ok(())),
        schema: Some(Ok(())),
        version_ensured: Some(Ok(())),
        identity_present: Some(Ok(true)),
        version: Some(Ok(Some("99".to_owned()))),
        ..OpenFacts::new()
    };
    assert!(matches!(
        initialize_storage(&facts, "fresh"),
        OpenStage::Failed(CatalogStoreError::Schema { .. })
    ));
    assert!(matches!(
        initialize_storage(&OpenFacts::new(), "fresh"),
        OpenStage::Needs(OpenStep::CreateDirectory)
    ));
}

#[test]
fn missing_trailing_page_is_rejected_on_reopen() {
    let mut stored = snapshot(&two_pages("two pages"));
    stored.documents[0].pages.pop();
    assert_eq!(
        corruption(scan_integrity(stored)),
        "persisted Document page count mismatch"
    );
}

#[test]
fn missing_non_default_layer_is_rejected_on_reopen() {
    let mut stored = snapshot(&two_pages("two pages"));
    stored.documents.clear();
    stored.canvases[1].row.layer_ids.pop();
    assert_eq!(
        corruption(scan_integrity(stored)),
        "persisted Canvas Layer count mismatch"
    );
}

#[test]
fn immutable_document_conflict_does_not_overwrite_existing_graph() {
    let original = two_pages("Test");
    let stored = || document_row(&original.document, 0).expect("row");
    assert_eq!(
        publish_document(
            &two_pages("different title"),
            Some(stored()),
            &stored_canvases(&original),
            &nothing_taken(),
        ),
        Err(CatalogStoreError::Conflict)
    );
    assert!(load_document(stored()).expect("document").same(&original.document));
    let mut canvases = stored_canvases(&original);
    canvases[1] = None;
    assert_eq!(
        publish_document(&original, Some(stored()), &canvases, &nothing_taken()),
        Err(CatalogStoreError::Corruption {
            detail: "published Document is missing its Canvas"
        })
    );
}

#[test]
fn taken_identifiers_stop_a_publication() {
    let composition = two_pages("Test");
    let taken = |document: bool, canvases: &[&str], layers: &[&str]| TakenIds {
        document,
        canvas_ids: canvases.iter().map(|id| (*id).to_owned()).collect(),
        layer_ids: layers.iter().map(|id| (*id).to_owned()).collect(),
    };
    assert!(!document_ids_collide(&composition, &taken(false, &["x"], &["c0"])));
    for taken in [
        taken(true, &[], &[]),
        taken(false, &["c1"], &[]),
        taken(false, &[], &["x", "l2"]),
    ] {
        assert!(document_ids_collide(&composition, &taken));
        assert_eq!(
            publish_document(&composition, None, &[], &taken),
            Err(CatalogStoreError::Conflict)
        );
    }
}

#[test]
fn rows_hold_what_is_written() {
    let composition = two_pages("Test");
    let row = document_row(&composition.document, 7).expect("row");
    assert_eq!(row.document_type, "pdf");
    assert_eq!(row.page_count, 2);
    assert_eq!(row.publication_sequence, 7);
    assert_eq!(row.pages[1].rotation, 90);
    assert_eq!(row.pages[1].page_index, 1);
    assert_eq!(row.pages[1].overlay_canvas_id.as_deref(), Some("c1"));
    let row = canvas_row(&composition.canvases[1]).expect("row");
    assert_eq!(row.layer_count, 2);
    assert_eq!(row.default_layer_id.as_deref(), Some("l1"));
    assert_eq!(parse_document_type("pdf"), Ok(DocumentType::Pdf));
    assert!(parse_document_type("PDF").is_err());
    assert_eq!(document_type_name(DocumentType::Pdf), "pdf");
}

#[test]
fn malformed_rows_are_named() {
    let good = || document_row(&two_pages("Test").document, 0).expect("row");
    let problem = |row: DocumentRow| corruption(load_document(row).map(|_| ()));
    assert_eq!(problem(DocumentRow { document_id: None, ..good() }), "malformed document ID");
    assert_eq!(
        problem(DocumentRow { session_id: None, ..good() }),
        "malformed document Session ID"
    );
    assert_eq!(
        problem(DocumentRow {
            document_type: "odt".to_owned(),
            source_asset_id: None,
            ..good()
        }),
        "unknown Document type"
    );
    assert_eq!(
        problem(DocumentRow { source_asset_id: None, ..good() }),
        "malformed source Asset ID"
    );
    assert_eq!(
        problem(DocumentRow { page_count: 0, pages: Vec::new(), ..good() }),
        "persisted Document page count mismatch"
    );
    assert_eq!(
        problem(DocumentRow { accepted: false, ..good() }),
        "invalid persisted Document descriptor"
    );
    let page = || document_row(&two_pages("Test").document, 0).expect("row").pages.remove(0);
    let problem = |row: PageRow| corruption(load_pages(vec![page(), row]).map(|_| ()));
    assert_eq!(problem(PageRow { page_id: None, ..page() }), "malformed Page ID");
    assert_eq!(problem(PageRow { page_index: -1, ..page() }), "invalid Page index");
    assert_eq!(problem(PageRow { page_index: 1 << 32, ..page() }), "invalid Page index");
    assert_eq!(problem(PageRow { rotation: 65536, ..page() }), "invalid Page rotation");
    assert_eq!(
        problem(PageRow { rotation_accepted: false, ..page() }),
        "invalid Page rotation"
    );
    assert_eq!(
        problem(PageRow { geometry_accepted: false, ..page() }),
        "invalid Page geometry"
    );
    assert_eq!(
        problem(PageRow { overlay_canvas_id: None, ..page() }),
        "malformed overlay Canvas ID"
    );
    let canvas = || canvas_row(&two_pages("Test").canvases[1]).expect("row");
    let problem = |row: CanvasRow| corruption(load_canvas(&row).map(|_| ()));
    assert_eq!(problem(CanvasRow { canvas_id: None, ..canvas() }), "malformed Canvas ID");
    assert_eq!(
        problem(CanvasRow { session_id: None, ..canvas() }),
        "malformed Canvas Session ID"
    );
    assert_eq!(
        problem(CanvasRow { space_accepted: false, ..canvas() }),
        "invalid Canvas space"
    );
    assert_eq!(
        problem(CanvasRow { default_layer_id: None, ..canvas() }),
        "malformed default Layer ID"
    );
    assert_eq!(
        problem(CanvasRow { layer_ids: vec![None], ..canvas() }),
        "malformed Layer ID"
    );
    assert_eq!(
        problem(CanvasRow { layer_count: 3, ..canvas() }),
        "persisted Canvas Layer count mismatch"
    );
    assert_eq!(
        problem(CanvasRow { accepted: false, ..canvas() }),
        "invalid persisted Canvas descriptor"
    );
    assert_eq!(
        problem(CanvasRow { default_layer_id: Some("l9".to_owned()), ..canvas() }),
        "invalid persisted Canvas descriptor"
    );
    let binding = |session: Option<&str>, canvas: Option<&str>| BindingRow {
        session_id: session.map(str::to_owned),
        canvas_id: canvas.map(str::to_owned),
    };
    assert_eq!(
        corruption(load_binding(binding(None, None)).map(|_| ())),
        "malformed bootstrap Session ID"
    );
    assert_eq!(
        corruption(load_binding(binding(Some("s"), None)).map(|_| ())),
        "malformed bootstrap Canvas ID"
    );
}

#[test]
fn scans_find_broken_links() {
    let scan = |change: fn(&mut CatalogSnapshot)| {
        let mut stored = snapshot(&two_pages("Test"));
        change(&mut stored);
        corruption(scan_integrity(stored))
    };
    assert_eq!(
        scan(|stored| stored.foreign_keys_hold = false),
        "Catalog foreign key check failed"
    );
    assert_eq!(
        scan(|stored| stored.documents[0].publication_sequence = -1),
        "invalid Document publication sequence"
    );
    assert_eq!(
        scan(|stored| {
            let again = document_row(&two_pages("Test").document, 0).expect("row");
            stored.documents.push(again);
        }),
        "invalid Document publication sequence"
    );
    assert_eq!(
        scan(|stored| {
            stored.documents[0].source_asset_id = None;
            stored.documents[0].document_type = "odt".to_owned();
        }),
        "malformed source Asset ID"
    );
    assert_eq!(
        scan(|stored| {
            stored.canvases.pop();
        }),
        "Document Page references missing Canvas"
    );
    assert_eq!(
        scan(|stored| stored.canvases[1].row.height = stored.canvases[1].row.width),
        "Document Page and Canvas descriptor mismatch"
    );
    assert_eq!(
        scan(|stored| stored.canvases[0].row.session_id = Some("other".to_owned())),
        "Document Page and Canvas descriptor mismatch"
    );
    assert_eq!(scan(|stored| stored.orphan_layers = 1), "orphan Layer row");
    assert_eq!(
        scan(|stored| stored.bindings.push(BindingRow {
            session_id: Some("session".to_owned()),
            canvas_id: Some("missing".to_owned()),
        })),
        "bootstrap binding references missing Canvas"
    );
    assert_eq!(
        scan(|stored| stored.bindings.push(BindingRow {
            session_id: Some("other".to_owned()),
            canvas_id: Some("c0".to_owned()),
        })),
        "bootstrap binding Session mismatch"
    );
}

#[test]
fn sound_catalog_has_every_layer_and_every_bound_canvas() {
    let scan = |change: fn(&mut CatalogSnapshot)| {
        let mut stored = snapshot(&two_pages("Test"));
        stored.canvases.push(KeyedCanvas {
            key: "alone".to_owned(),
            row: canvas_row(&canvas("alone", "session", 7.0, 8.0, &["l8", "l9"])).expect("row"),
        });
        stored.bindings.push(BindingRow {
            session_id: Some("session".to_owned()),
            canvas_id: Some("alone".to_owned()),
        });
        change(&mut stored);
        scan_integrity(stored)
    };
    assert_eq!(scan(|_| {}), Ok(()));
    assert_eq!(
        corruption(scan(|stored| stored.canvases[2].row.layer_count = 3)),
        "persisted Canvas Layer count mismatch"
    );
    assert_eq!(
        corruption(scan(|stored| {
            stored.canvases[2].row.layer_ids.pop();
        })),
        "persisted Canvas Layer count mismatch"
    );
    assert_eq!(
        corruption(scan(|stored| {
            stored.canvases[2].row.default_layer_id = Some("elsewhere".to_owned());
        })),
        "invalid persisted Canvas descriptor"
    );
    assert_eq!(
        corruption(scan(|stored| stored.documents[0].page_count = 3)),
        "persisted Document page count mismatch"
    );
    assert_eq!(
        corruption(scan(|stored| stored.bindings[0].canvas_id = Some("missing".to_owned()))),
        "bootstrap binding references missing Canvas"
    );
    assert_eq!(
        corruption(scan(|stored| stored.bindings[0].session_id = Some("other".to_owned()))),
        "bootstrap binding Session mismatch"
    );
}

#[test]
fn publications_leave_a_sound_catalog() {
    let mut stored = snapshot(&two_pages("Test"));
    let alone = canvas("alone", "session", 7.0, 8.0, &["l9"]);
    stored.canvases.push(KeyedCanvas {
        key: "alone".to_owned(),
        row: canvas_row(&alone).expect("row"),
    });
    for bound in ["alone", "c1"] {
        stored.bindings.push(BindingRow {
            session_id: Some("session".to_owned()),
            canvas_id: Some(bound.to_owned()),
        });
    }
    stored.documents.push(
        document_row(
            &document("another", "Another", vec![page("alone", 0, 7.0, 8.0, 180)]),
            3,
        )
        .expect("row"),
    );
    assert_eq!(scan_integrity(stored), Ok(()));
}

#[test]
fn listings_keep_the_order_of_publication() {
    let entry = |title: &str, sequence: i64| ListedDocument {
        readable: true,
        row: Some(document_row(&two_pages(title).document, sequence).expect("row")),
        summarizable: true,
    };
    let listed = list_documents(vec![entry("a", 0), entry("b", 1)], true).expect("listing");
    let titles: Vec<_> = listed.iter().map(|document| document.title()).collect();
    assert_eq!(titles, ["a", "b"]);
    let problem = |entry: ListedDocument, summaries: bool| {
        corruption(list_documents(vec![entry], summaries).map(|_| ()))
    };
    assert_eq!(
        problem(ListedDocument { readable: false, ..entry("a", 0) }, false),
        "malformed document ID"
    );
    assert_eq!(
        problem(ListedDocument { row: None, ..entry("a", 0) }, false),
        "publication order references missing Document"
    );
    assert_eq!(
        problem(ListedDocument { summarizable: false, ..entry("a", 0) }, true),
        "Document page count overflowed"
    );
    let plain = ListedDocument { summarizable: false, ..entry("a", 0) };
    assert_eq!(list_documents(vec![plain], false).expect("listing").len(), 1);
}

#[test]
fn catalog_errors_are_told_in_words() {
    let errors = [
        CatalogStoreError::InvalidQueueCapacity,
        CatalogStoreError::Unavailable { detail: "d" },
        CatalogStoreError::Backend { detail: "d".to_owned() },
        CatalogStoreError::Corruption { detail: "d" },
        CatalogStoreError::Schema { detail: "d" },
        CatalogStoreError::Conflict,
        CatalogStoreError::InvalidGraph { detail: "d" },
    ];
    let messages: Vec<_> = errors.iter().map(|error| error.message()).collect();
    assert_eq!(
        messages,
        vec![
            "catalog command queue capacity must be greater than zero",
            "catalog backend unavailable: d",
            "catalog backend failure: d",
            "catalog persistence corruption: d",
            "catalog schema is incompatible: d",
            "catalog immutable identity conflict",
            "catalog graph is invalid: d",
        ]
    );
    for error in &errors {
        assert_eq!(&error.copy(), error);
    }
    assert_eq!(check_queue_capacity(0), Err(CatalogStoreError::InvalidQueueCapacity));
    assert_eq!(check_queue_capacity(128), Ok(()));
    assert_eq!(
        map_sqlite("disk I/O error".to_owned()),
        CatalogStoreError::Backend { detail: "disk I/O error".to_owned() }
    );
    assert_eq!(
        map_send_error(SendFault::Full),
        CatalogStoreError::Unavailable { detail: "catalog command queue is full" }
    );
    assert_eq!(
        map_send_error(SendFault::Closed),
        CatalogStoreError::Unavailable { detail: "catalog worker is unavailable" }
    );
    assert_eq!(check_integrity_report("ok"), Ok(()));
    assert_eq!(corruption(check_integrity_report("bad")), "SQLite quick_check failed");
    assert_eq!(check_physical_store_id(Some(true)), Ok(()));
    assert_eq!(
        corruption(check_physical_store_id(Some(false))),
        "malformed physical store identity"
    );
    assert_eq!(
        corruption(check_physical_store_id(None)),
        "missing physical store identity"
    );
}
