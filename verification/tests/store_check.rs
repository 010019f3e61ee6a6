use pumas_core::error::PumasError;
use pumas_core::keyed::Keyed;
use pumas_core::persistence::DownloadPersistence;
use pumas_core::store_check::validate_store_data;
use pumas_core::store_load::ParsedStoreDocument;
use pumas_core::store_model::{
    DownloadAdmissionDomain, DownloadAdmissionPosition, DownloadAdmissionRequest, DownloadRequest,
    DownloadStatus, DownloadStoreData, LifecycleQuarantineDomain, PersistedAdmissionAttempt,
    PersistedDestinationIdentity, PersistedDownload, PersistedLifecycleCleanupDisposition,
    PersistedLifecycleQuarantine, PersistedRecoveryRevocation, PersistedRevocationDisposition, QueuePredecessor,
};
use pumas_core::store_model::{LegacyRelocationRequest, PersistedLegacyRelocation};

fn row(download_id: &str, status: DownloadStatus) -> PersistedDownload {
    PersistedDownload {
        download_id: download_id.to_string(),
        repo_id: "test/model".to_string(),
        filename: "model.gguf".to_string(),
        filenames: vec!["model.gguf".to_string()],
        dest_dir: format!("/models/{download_id}"),
        total_bytes: None,
        status,
        download_request: DownloadRequest {
            repo_id: "test/model".to_string(),
            family: "test".to_string(),
            official_name: "Test".to_string(),
            model_type: None,
            quant: None,
            filename: None,
            filenames: None,
            pipeline_tag: None,
            bundle_format: None,
            pipeline_class: None,
            release_date: None,
            download_url: None,
            model_card_json: None,
            license_status: None,
        },
        created_at: "2025-01-01T00:00:00Z".to_string(),
        known_sha256: None,
        huggingface_evidence: None,
    }
}

fn refusal(data: &DownloadStoreData) -> (String, String) {
    match validate_store_data(data) {
        Err(PumasError::Validation { field, message }) => (field, message),
        other => panic!("unexpected: {:?}", other),
    }
}

#[test]
fn an_empty_current_document_is_valid() {
    assert!(validate_store_data(&DownloadStoreData::empty()).is_ok());
}

#[test]
fn unsupported_schema_versions_are_named() {
    let mut data = DownloadStoreData::empty();
    data.schema_version = 2;
    assert_eq!(
        refusal(&data),
        ("downloads.schema_version".to_string(), "Unsupported download store schema version 2".to_string())
    );
}

#[test]
fn duplicate_and_revoked_rows_are_named() {
    let mut data = DownloadStoreData::empty();
    data.downloads = vec![row("a", DownloadStatus::Paused), row("a", DownloadStatus::Paused)];
    assert_eq!(refusal(&data), ("downloads.download_id".to_string(), "Duplicate persisted download ID a".to_string()));

    let mut data = DownloadStoreData::empty();
    data.downloads = vec![row("a", DownloadStatus::Paused)];
    data.recovery_revocations = vec![Keyed {
        key: "a".to_string(),
        value: PersistedRecoveryRevocation {
            attempt_id: uuid::Uuid::new_v4().to_string(),
            disposition: PersistedRevocationDisposition::Durable,
        },
    }];
    assert_eq!(
        refusal(&data),
        ("downloads.recovery_revocations".to_string(), "Download a is both active and recovery-revoked".to_string())
    );
}

#[test]
fn invalid_revocation_attempts_carry_the_parse_error() {
    let mut data = DownloadStoreData::empty();
    data.recovery_revocations = vec![Keyed {
        key: "b".to_string(),
        value: PersistedRecoveryRevocation {
            attempt_id: "nope".to_string(),
            disposition: PersistedRevocationDisposition::Durable,
        },
    }];
    let source = uuid::Uuid::parse_str("nope").unwrap_err().to_string();
    assert_eq!(
        refusal(&data),
        (
            "downloads.recovery_revocations".to_string(),
            format!("Invalid recovery revocation attempt for b: {source}")
        )
    );
}

#[test]
fn quarantine_refusals_name_the_download() {
    let mut data = DownloadStoreData::empty();
    data.lifecycle_quarantines = vec![Keyed {
        key: "q".to_string(),
        value: PersistedLifecycleQuarantine {
            snapshot: row("other", DownloadStatus::Cancelling),
            domain: LifecycleQuarantineDomain::Ambient,
            disposition: PersistedLifecycleCleanupDisposition::Pending,
            sticky_failure: false,
        },
    }];
    assert_eq!(
        refusal(&data),
        (
            "downloads.lifecycle_quarantines".to_string(),
            "Lifecycle quarantine key q does not match its snapshot ID".to_string()
        )
    );
    data.lifecycle_quarantines[0].value.snapshot = row("q", DownloadStatus::Error);
    assert_eq!(
        refusal(&data).1,
        "Lifecycle quarantine q has a status inconsistent with its provenance".to_string()
    );
    data.lifecycle_quarantines[0].value.snapshot = row("q", DownloadStatus::Cancelling);
    assert!(validate_store_data(&data).is_ok());
}

fn intent(download_id: &str, ordinal: u64) -> PersistedAdmissionAttempt {
    PersistedAdmissionAttempt {
        request: DownloadAdmissionRequest {
            snapshot: row(download_id, DownloadStatus::Queued),
            domain: DownloadAdmissionDomain::Ambient,
            destination: PersistedDestinationIdentity {
                library_root: "unix:7:11".to_string(),
                relative_target: "llm/test/model".to_string(),
            },
            requested_payload_files: vec!["model.gguf".to_string()],
            execution_files: vec!["model.gguf".to_string()],
        },
        position: DownloadAdmissionPosition { ordinal, predecessor: None },
    }
}

#[test]
fn a_shared_ordinal_is_reported_before_later_intents_are_checked() {
    let mut data = DownloadStoreData::empty();
    data.admission_attempts = vec![
        Keyed { key: "00000000-0000-4000-8000-000000000001".to_string(), value: intent("a", 1) },
        Keyed { key: "00000000-0000-4000-8000-000000000002".to_string(), value: intent("b", 1) },
        Keyed { key: "not-a-uuid".to_string(), value: intent("c", 2) },
    ];
    assert_eq!(
        refusal(&data),
        ("downloads.queue_admissions".to_string(), "Duplicate destination admission ordinal".to_string())
    );
    data.admission_attempts[1].value.position.ordinal = 3;
    let source = uuid::Uuid::parse_str("not-a-uuid").unwrap_err().to_string();
    assert_eq!(
        refusal(&data),
        ("downloads.admission_attempts".to_string(), format!("Invalid admission attempt not-a-uuid: {source}"))
    );
}

#[test]
fn the_first_faulty_admission_by_download_and_attempt_is_reported() {
    let mut data = DownloadStoreData::empty();
    let mut late = intent("zz", 1);
    late.position.predecessor =
        Some(QueuePredecessor { download_id: "ghost".to_string(), admission_attempt_id: "x".to_string() });
    let mut early = intent("aa", 2);
    early.position.predecessor =
        Some(QueuePredecessor { download_id: "ghost".to_string(), admission_attempt_id: "y".to_string() });
    let first = "00000000-0000-4000-8000-000000000001".to_string();
    let second = "00000000-0000-4000-8000-000000000002".to_string();
    data.admission_attempts =
        vec![Keyed { key: first.clone(), value: late }, Keyed { key: second.clone(), value: early }];
    assert_eq!(
        refusal(&data),
        ("downloads.queue_admissions".to_string(), format!("Admission aa/{second} has an orphan predecessor"))
    );
    data.admission_attempts[1].value.position.predecessor = Some(QueuePredecessor {
        download_id: "zz".to_string(),
        admission_attempt_id: first.clone(),
    });
    data.admission_attempts[1].value.position.ordinal = 0;
    assert_eq!(
        refusal(&data),
        ("downloads.queue_admissions".to_string(), format!("Admission aa/{second} has an invalid predecessor"))
    );
}

fn place(relative: &str) -> PersistedDestinationIdentity {
    PersistedDestinationIdentity { library_root: "unix:7:11".to_string(), relative_target: relative.to_string() }
}

fn relocation(attempt: &str, source: &str, target: &str) -> PersistedLegacyRelocation {
    PersistedLegacyRelocation {
        attempt_id: attempt.to_string(),
        request: LegacyRelocationRequest {
            source: place(source),
            target: place(target),
            target_dir: format!("/models/new/{target}"),
            model_type: None,
            family: None,
        },
    }
}

#[test]
fn relocations_sharing_an_attempt_or_a_destination_are_refused_in_order() {
    let attempt = "00000000-0000-4000-8000-000000000009";
    let mut data = DownloadStoreData::empty();
    data.downloads = vec![row("a", DownloadStatus::Paused), row("b", DownloadStatus::Error)];
    data.pending_relocations = vec![
        Keyed { key: "a".to_string(), value: relocation(attempt, "old/a", "new/a") },
        Keyed { key: "b".to_string(), value: relocation(attempt, "old/b", "new/b") },
    ];
    assert_eq!(
        refusal(&data),
        ("downloads.pending_relocations".to_string(), "Relocation attempt has another owner".to_string())
    );
    data.pending_relocations[1].value = relocation("00000000-0000-4000-8000-00000000000a", "old/b", "new/a");
    assert_eq!(
        refusal(&data),
        ("downloads.pending_relocations".to_string(), "Pending relocations overlap destinations".to_string())
    );
    data.pending_relocations[1].value = relocation("00000000-0000-4000-8000-00000000000a", "old/b", "new/b");
    assert!(validate_store_data(&data).is_ok());
}

fn bad_revocation() -> PersistedRecoveryRevocation {
    PersistedRecoveryRevocation {
        attempt_id: "not-a-uuid".to_string(),
        disposition: PersistedRevocationDisposition::Durable,
    }
}

#[test]
fn a_stored_document_reports_its_first_faulty_revocation_by_download_id() {
    let parsed = ParsedStoreDocument::Current {
        schema_version: DownloadStoreData::empty().schema_version,
        downloads: Vec::new(),
        recovery_revocations: vec![
            Keyed { key: "zeta".to_string(), value: bad_revocation() },
            Keyed { key: "alpha".to_string(), value: bad_revocation() },
        ],
        lifecycle_quarantines: Vec::new(),
        admission_attempts: Vec::new(),
        queue_admissions: Vec::new(),
        released_queue_admissions: Vec::new(),
        pending_relocations: Vec::new(),
    };
    let source = uuid::Uuid::parse_str("not-a-uuid").unwrap_err().to_string();
    match DownloadPersistence::new("/data").load_data_strict(parsed) {
        Err(PumasError::Validation { field, message }) => {
            assert_eq!(field, "downloads.recovery_revocations");
            assert_eq!(message, format!("Invalid recovery revocation attempt for alpha: {source}"));
        }
        _ => panic!("expected the revocation of alpha to be refused"),
    }
}

#[test]
fn a_blank_revocation_id_sorts_first_and_is_named() {
    let mut data = DownloadStoreData::empty();
    data.recovery_revocations = vec![
        Keyed { key: "  ".to_string(), value: bad_revocation() },
        Keyed { key: "a".to_string(), value: bad_revocation() },
    ];
    assert_eq!(
        refusal(&data),
        ("downloads.recovery_revocations".to_string(), "Recovery revocation has an empty download ID".to_string())
    );
}
