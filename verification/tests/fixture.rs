use pumas_core::error::PumasError;
use pumas_core::fixture::{check_paused_fixture, destination_below_root, fixture_admission_request};
use pumas_core::recovery_ticket::FilesystemIdentity;
use pumas_core::store_model::{
    DownloadAdmissionDomain, DownloadRequest, DownloadStatus, PersistedDestinationIdentity, PersistedDownload,
};

fn fixture(status: DownloadStatus, files: Option<Vec<String>>) -> PersistedDownload {
    PersistedDownload {
        download_id: "fixture-1".to_string(),
        repo_id: "test/model".to_string(),
        filename: "model.gguf".to_string(),
        filenames: vec!["README.md".to_string(), "model.gguf".to_string()],
        dest_dir: "llm/test/model".to_string(),
        total_bytes: Some(10),
        status,
        download_request: DownloadRequest {
            repo_id: "test/model".to_string(),
            family: "test".to_string(),
            official_name: "Test Model".to_string(),
            model_type: None,
            quant: None,
            filename: None,
            filenames: files,
            pipeline_tag: None,
            bundle_format: None,
            pipeline_class: None,
            release_date: None,
            download_url: None,
            model_card_json: None,
            license_status: None,
        },
        created_at: "2025-01-01T00:00:00Z".to_string(),
        known_sha256: None,
        huggingface_evidence: None,
    }
}

fn destination() -> PersistedDestinationIdentity {
    PersistedDestinationIdentity { library_root: "unix:7:11".to_string(), relative_target: "llm/test/model".to_string() }
}

fn refused<T>(r: Result<T, PumasError>) -> PumasError {
    match r {
        Ok(_) => panic!("accepted"),
        Err(e) => e,
    }
}

fn validation(e: PumasError) -> (String, String) {
    match e {
        PumasError::Validation { field, message } => (field, message),
        other => panic!("not a validation error: {:?}", other),
    }
}

#[test]
fn fixture_must_be_paused() {
    let snapshot = fixture(DownloadStatus::Queued, Some(vec!["model.gguf".to_string()]));
    let (field, message) = validation(check_paused_fixture(&snapshot).unwrap_err());
    assert_eq!(field, "fixture.status");
    assert_eq!(message, "Admission fixtures must be paused");
    let (field, _) = validation(refused(fixture_admission_request(&snapshot, destination())));
    assert_eq!(field, "fixture.status");
    assert!(check_paused_fixture(&fixture(DownloadStatus::Paused, None)).is_ok());
}

#[test]
fn fixture_needs_explicit_payload_files() {
    let snapshot = fixture(DownloadStatus::Paused, None);
    let (field, message) = validation(refused(fixture_admission_request(&snapshot, destination())));
    assert_eq!(field, "fixture.download_request.filenames");
    assert_eq!(message, "Admission fixtures require explicit payload files");
}

#[test]
fn fixture_request_is_an_ambient_admission() {
    let snapshot = fixture(DownloadStatus::Paused, Some(vec!["model.gguf".to_string()]));
    let request = match fixture_admission_request(&snapshot, destination()) {
        Ok(r) => r,
        Err(e) => panic!("refused: {:?}", e),
    };
    assert!(matches!(request.domain, DownloadAdmissionDomain::Ambient));
    assert_eq!(request.requested_payload_files, vec!["model.gguf".to_string()]);
    assert_eq!(request.execution_files, vec!["README.md".to_string(), "model.gguf".to_string()]);
    assert_eq!(request.destination.library_root, "unix:7:11");
    assert_eq!(request.snapshot.download_id, "fixture-1");
}

#[test]
fn destination_below_root_needs_a_portable_relative_path() {
    let root = FilesystemIdentity { volume: 7, file: 11 };
    let d = destination_below_root(root, Some("llm/test/model")).unwrap();
    assert_eq!(d.relative, "llm/test/model");
    assert_eq!(d.persisted().library_root, "unix:7:11");
    assert!(destination_below_root(root, None).is_none());
    assert!(destination_below_root(root, Some("../escape")).is_none());
    assert!(destination_below_root(root, Some("")).is_none());
}
