use pumas_core::error::PumasError;
use pumas_core::keyed::Keyed;
use pumas_core::persistence::DownloadPersistence;
use pumas_core::store_load::{ParsedStoreDocument, SchemaVersionField, StoreSchema};
use pumas_core::store_model::{
    DownloadRequest, DownloadStatus, PersistedDownload, PersistedRecoveryRevocation,
    PersistedRevocationDisposition, DOWNLOAD_STORE_SCHEMA_VERSION,
};

fn persisted(download_id: &str) -> PersistedDownload {
    PersistedDownload {
        download_id: download_id.to_string(),
        repo_id: "test/model".to_string(),
        filename: "model.gguf".to_string(),
        filenames: vec!["model.gguf".to_string()],
        dest_dir: "/managed/model".to_string(),
        total_bytes: Some(1000),
        status: DownloadStatus::Paused,
        download_request: DownloadRequest {
            repo_id: "test/model".to_string(),
            family: "test".to_string(),
            official_name: "Test Model".to_string(),
            model_type: Some("llm".to_string()),
            quant: Some("Q4_K_M".to_string()),
            filename: None,
            filenames: None,
            pipeline_tag: None,
            bundle_format: None,
            pipeline_class: None,
            release_date: None,
            download_url: None,
            model_card_json: None,
            license_status: None,
        },
        created_at: "2025-01-01T00:00:00Z".to_string(),
        known_sha256: None,
        huggingface_evidence: None,
    }
}

fn current(
    downloads: Vec<PersistedDownload>,
    recovery_revocations: Vec<Keyed<PersistedRecoveryRevocation>>,
) -> ParsedStoreDocument {
    ParsedStoreDocument::Current {
        schema_version: DOWNLOAD_STORE_SCHEMA_VERSION,
        downloads,
        recovery_revocations,
        lifecycle_quarantines: Vec::new(),
        admission_attempts: Vec::new(),
        queue_admissions: Vec::new(),
        released_queue_admissions: Vec::new(),
        pending_relocations: Vec::new(),
    }
}

#[test]
fn schema_version_selects_the_parser() {
    let store = DownloadPersistence::new("/data");
    assert_eq!(store.select_store_schema(SchemaVersionField::Absent).unwrap(), StoreSchema::Legacy);
    assert_eq!(store.select_store_schema(SchemaVersionField::Unsigned(1)).unwrap(), StoreSchema::VersionOne);
    assert_eq!(store.select_store_schema(SchemaVersionField::Unsigned(2)).unwrap(), StoreSchema::VersionTwo);
    assert_eq!(store.select_store_schema(SchemaVersionField::Unsigned(3)).unwrap(), StoreSchema::Current);
    for unsupported in [SchemaVersionField::Unsigned(99), SchemaVersionField::Other] {
        match store.select_store_schema(unsupported) {
            Err(PumasError::Validation { field, message }) => {
                assert_eq!(field, "downloads.schema_version");
                assert_eq!(message, "Unsupported download store schema version in /data/downloads.json");
            }
            other => panic!("unexpected {other:?}"),
        }
    }
}

#[test]
fn strict_fresh_read_rejects_unsupported_and_conflicting_v3_documents() {
    let store = DownloadPersistence::new("/data");
    assert!(matches!(
        store.select_store_schema(SchemaVersionField::Unsigned(99)),
        Err(PumasError::Validation { ref field, .. }) if field == "downloads.schema_version"
    ));
    let conflict = current(
        vec![persisted("dl-conflict")],
        vec![Keyed {
            key: "dl-conflict".to_string(),
            value: PersistedRecoveryRevocation {
                attempt_id: uuid::Uuid::new_v4().to_string(),
                disposition: PersistedRevocationDisposition::Durable,
            },
        }],
    );
    assert!(matches!(
        store.load_data_strict(conflict),
        Err(PumasError::Validation { ref field, .. }) if field == "downloads.recovery_revocations"
    ));
}

#[test]
fn versioned_v1_and_v2_documents_migrate_as_recoverable_v3_state() {
    let store = DownloadPersistence::new("/data");
    for parsed in [
        ParsedStoreDocument::VersionOne { downloads: vec![persisted("dl-v1")] },
        ParsedStoreDocument::VersionTwo { downloads: vec![persisted("dl-v2")], recovery_revocations: Vec::new() },
        ParsedStoreDocument::Legacy { downloads: vec![persisted("dl-legacy")] },
    ] {
        let data = store.load_data_strict(parsed).unwrap();
        assert_eq!(data.schema_version, 3);
        assert_eq!(data.downloads.len(), 1);
        assert!(data.lifecycle_quarantines.is_empty());
        assert!(data.recovery_revocations.is_empty());
        let inventory = store.load_lifecycle_inventory_strict(&data);
        assert_eq!(inventory.downloads.len(), 1);
        assert!(inventory.quarantines.is_empty());
        let id = data.downloads[0].download_id.clone();
        let updated = store.update_status(data, &id, DownloadStatus::Error).unwrap().unwrap();
        assert_eq!(updated.schema_version, DOWNLOAD_STORE_SCHEMA_VERSION);
        assert_eq!(updated.downloads[0].status, DownloadStatus::Error);
    }
}

#[test]
fn missing_document_is_empty_and_later_entries_replace_earlier_ones() {
    let store = DownloadPersistence::new("/data");
    let empty = store.load_data_strict(ParsedStoreDocument::Missing).unwrap();
    assert!(empty.downloads.is_empty());
    let revocation = |attempt: &str| Keyed {
        key: "dl-gone".to_string(),
        value: PersistedRecoveryRevocation {
            attempt_id: attempt.to_string(),
            disposition: PersistedRevocationDisposition::Durable,
        },
    };
    let first = uuid::Uuid::new_v4().to_string();
    let second = uuid::Uuid::new_v4().to_string();
    let data = store
        .load_data_strict(current(Vec::new(), vec![revocation(&first), revocation(&second)]))
        .unwrap();
    assert_eq!(data.recovery_revocations.len(), 1);
    assert_eq!(data.recovery_revocations[0].value.attempt_id, second);
}
