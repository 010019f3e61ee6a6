use pumas_core::error::PumasError;
use pumas_core::recovery_ids::DownloadRecoveryToken;
use pumas_core::recovery_meta::{MetadataValue, RecoveryMetadata};
use pumas_core::recovery_ticket::{
    issue_download_recovery_ticket, verify_download_recovery_ticket, DownloadRecoveryVerification,
    FilesystemIdentity, RecoveryPlacement, RecoverySnapshot,
};

fn text(s: &str) -> MetadataValue {
    MetadataValue::Text(s.to_string())
}

fn files(names: &[&str]) -> MetadataValue {
    MetadataValue::List(names.iter().map(|n| Some(n.to_string())).collect())
}

fn metadata(names: &[&str]) -> RecoveryMetadata {
    RecoveryMetadata {
        is_object: true,
        download_incomplete: MetadataValue::Bool(true),
        repo_id: text("acme/model"),
        selected_artifact_id: text("acme/model::Q4_K_M"),
        selected_artifact_quant: text("Q4_K_M"),
        selected_artifact_files: files(names),
        expected_files: MetadataValue::Missing,
    }
}

fn placement(dir: &str) -> Option<RecoveryPlacement> {
    Some(RecoveryPlacement {
        canonical_model_dir: dir.to_string(),
        root_identity: FilesystemIdentity { volume: 7, file: 11 },
    })
}

fn token_of(model_id: &str, m: &RecoveryMetadata, dir: &str) -> String {
    issue_download_recovery_ticket(model_id, m, placement(dir))
        .unwrap()
        .unwrap()
        .token()
        .to_string()
}

#[test]
fn recovery_fingerprint_is_canonical_and_stales_on_semantic_change() {
    let dir = "/lib/llm/acme/model";
    let first = metadata(&["weights-2.gguf", "weights-1.gguf"]);
    let ticket = issue_download_recovery_ticket("llm/acme/model", &first, placement(dir))
        .unwrap()
        .unwrap();
    assert_eq!(ticket.token().len(), 67);
    assert!(ticket.token().starts_with("v1:"));
    assert!(ticket.token()[3..].bytes().all(|b| b.is_ascii_hexdigit()));
    assert_eq!(
        ticket.selected_artifact_files(),
        &["weights-1.gguf".to_string(), "weights-2.gguf".to_string()]
    );
    assert_eq!(ticket.repo_id(), "acme/model");
    assert_eq!(ticket.selected_artifact_quant(), Some("Q4_K_M"));
    let token = ticket.token().to_string();

    let reordered = metadata(&["weights-1.gguf", "weights-2.gguf"]);
    assert_eq!(token_of("llm/acme/model", &reordered, dir), token, "file order is not semantic");
    let duplicated = metadata(&["weights-2.gguf", "weights-1.gguf", "weights-1.gguf"]);
    assert_eq!(token_of("llm/acme/model", &duplicated, dir), token);

    for changed in [metadata(&["weights-1.gguf"]), metadata(&["weights-1.gguf", "weights-3.gguf"])] {
        assert_ne!(token_of("llm/acme/model", &changed, dir), token);
    }
    let mut changed = metadata(&["weights-1.gguf", "weights-2.gguf"]);
    changed.repo_id = text("Acme/model");
    assert_ne!(token_of("llm/acme/model", &changed, dir), token);
    let mut changed = metadata(&["weights-1.gguf", "weights-2.gguf"]);
    changed.selected_artifact_quant = text("Q5_K_M");
    assert_ne!(token_of("llm/acme/model", &changed, dir), token);
    assert_ne!(token_of("llm/acme/moved", &first, "/lib/llm/acme/moved"), token);
    assert_ne!(token_of("llm/acme/model", &first, "/lib2/llm/acme/model"), token);
}

#[test]
fn ticket_verifies_until_its_state_changes() {
    let dir = "/lib/llm/acme/model";
    let m = metadata(&["a.gguf"]);
    let ticket = issue_download_recovery_ticket("llm/acme/model", &m, placement(dir)).unwrap().unwrap();
    let token = DownloadRecoveryToken::parse(ticket.token()).unwrap();
    match verify_download_recovery_ticket("llm/acme/model", &m, placement(dir), &token).unwrap() {
        DownloadRecoveryVerification::Verified { repo_id, files } => {
            assert_eq!(repo_id, "acme/model");
            assert_eq!(files, vec!["a.gguf".to_string()]);
        }
        _ => panic!("current ticket did not verify"),
    }
    let other = metadata(&["b.gguf"]);
    assert!(matches!(
        verify_download_recovery_ticket("llm/acme/model", &other, placement(dir), &token).unwrap(),
        DownloadRecoveryVerification::Stale
    ));
    assert!(matches!(
        verify_download_recovery_ticket("llm/acme/model", &m, None, &token).unwrap(),
        DownloadRecoveryVerification::Unavailable
    ));
    let mut complete = metadata(&["a.gguf"]);
    complete.download_incomplete = MetadataValue::Bool(false);
    assert!(matches!(
        verify_download_recovery_ticket("llm/acme/model", &complete, placement(dir), &token).unwrap(),
        DownloadRecoveryVerification::Complete
    ));
}

#[test]
fn malformed_or_ineligible_metadata() {
    let mut not_object = metadata(&["a.gguf"]);
    not_object.is_object = false;
    assert!(issue_download_recovery_ticket("m", &not_object, placement("/d")).is_err());
    let mut bad_flag = metadata(&["a.gguf"]);
    bad_flag.download_incomplete = text("yes");
    assert!(issue_download_recovery_ticket("m", &bad_flag, placement("/d")).is_err());
    let mut no_repo = metadata(&["a.gguf"]);
    no_repo.repo_id = MetadataValue::Null;
    assert!(issue_download_recovery_ticket("m", &no_repo, placement("/d")).unwrap().is_none());
    let mut bad_list = metadata(&["a.gguf"]);
    bad_list.selected_artifact_files = MetadataValue::List(vec![None]);
    assert!(issue_download_recovery_ticket("m", &bad_list, placement("/d")).is_err());
    let no_files = metadata(&[]);
    assert!(issue_download_recovery_ticket("m", &no_files, placement("/d")).unwrap().is_none());
    let mut expected_only = metadata(&[]);
    expected_only.expected_files = files(&["e.gguf"]);
    let t = issue_download_recovery_ticket("m", &expected_only, placement("/d")).unwrap().unwrap();
    assert_eq!(t.selected_artifact_files(), &["e.gguf".to_string()]);
    assert!(issue_download_recovery_ticket("m", &metadata(&["a.gguf"]), None).unwrap().is_none());
    assert!(matches!(
        issue_download_recovery_ticket("m", &not_object, None),
        Err(PumasError::Other(m)) if m == "Model download recovery metadata is invalid"
    ));
}

#[test]
fn snapshot_token_is_the_blake3_digest_of_its_preimage() {
    let snapshot = RecoverySnapshot {
        model_id: "m".into(),
        canonical_model_dir: "/d".into(),
        root_identity: FilesystemIdentity { volume: 1, file: 2 },
        repo_id: "a/b".into(),
        selected_artifact_id: None,
        selected_artifact_files: vec!["f".into()],
        selected_artifact_quant: None,
    };
    let token = snapshot.token();
    let digest = &token.as_str()[3..];
    assert_eq!(digest.len(), 64);
    assert!(digest.bytes().all(|b| b.is_ascii_digit() || (b'a'..=b'f').contains(&b)));
    assert_eq!(snapshot.token().as_str(), token.as_str());
    let mut other = snapshot;
    other.root_identity.file = 3;
    assert_ne!(other.token().as_str(), token.as_str());
}
