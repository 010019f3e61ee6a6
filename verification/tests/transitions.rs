use pumas_core::error::PumasError;
use pumas_core::publication::{
    publication_result, AtomicPublication, AtomicPublishFailure, AtomicPublishFailureKind,
    AtomicPublishStage, StagingCleanup,
};
use pumas_core::transitions::{
    admission_error_context, admission_publication_outcome, DownloadAdmissionPhase,
    DownloadAdmissionTransition,
};

fn io_fault() -> PumasError {
    PumasError::Io {
        message: "publication fault".into(),
        path: Some("downloads.json".into()),
        os_code: Some(13),
    }
}

#[test]
fn admission_error_conversion_preserves_io_classification_and_uncertainty() {
    for phase in [DownloadAdmissionPhase::Intent, DownloadAdmissionPhase::Confirmation] {
        for publication in 0..3 {
            let error = io_fault();
            let attempt_id = "exact-attempt".to_string();
            let transition = match publication {
                0 => DownloadAdmissionTransition::NotPublished {
                    attempt_id,
                    phase,
                    stage: AtomicPublishStage::Staging,
                    kind: AtomicPublishFailureKind::Filesystem,
                    error,
                    cleanup: StagingCleanup::Removed,
                },
                1 => DownloadAdmissionTransition::PublishedDurabilityUnknown { attempt_id, phase, error },
                _ => DownloadAdmissionTransition::VisibilityUnknown {
                    attempt_id,
                    phase,
                    error,
                    cleanup: StagingCleanup::NotRequired,
                },
            };
            let PumasError::Io { message, path, os_code } = transition.into_result().err().unwrap()
            else {
                panic!("publication error lost its IO classification");
            };
            assert_eq!(path.as_deref(), Some("downloads.json"));
            assert_eq!(os_code, Some(13));
            assert!(message.contains("exact-attempt"));
            assert!(message.contains(&format!("{phase:?}")));
            assert!(message.contains("publication fault"));
            assert!(message.contains(match publication {
                0 => "not published",
                1 => "unknown durability",
                _ => "unknown visibility",
            }));
        }
    }
    let error = DownloadAdmissionTransition::VisibilityUnknown {
        attempt_id: "cleanup-attempt".into(),
        phase: DownloadAdmissionPhase::Confirmation,
        error: PumasError::Other("publication fault".into()),
        cleanup: StagingCleanup::Failed { error: PumasError::Other("cleanup fault".into()) },
    }
    .into_result()
    .err()
    .unwrap()
    .describe();
    assert!(error.contains("unknown visibility"));
    assert!(error.contains("publication fault"));
    assert!(error.contains("cleanup fault"));
}

#[test]
fn admission_messages_are_exact() {
    let e = DownloadAdmissionTransition::PublishedDurabilityUnknown {
        attempt_id: "a1".into(),
        phase: DownloadAdmissionPhase::Intent,
        error: PumasError::Other("sync".into()),
    }
    .into_result()
    .err()
    .unwrap();
    assert!(matches!(
        e,
        PumasError::Other(m)
            if m == "Download admission a1 Intent has unknown durability; effects remain blocked: sync"
    ));
    let e = DownloadAdmissionTransition::NotPublished {
        attempt_id: "a2".into(),
        phase: DownloadAdmissionPhase::Confirmation,
        stage: AtomicPublishStage::Rename,
        kind: AtomicPublishFailureKind::Filesystem,
        error: PumasError::Validation { field: "f".into(), message: "m".into() },
        cleanup: StagingCleanup::NotRequired,
    }
    .into_result()
    .err()
    .unwrap();
    assert!(matches!(
        e,
        PumasError::Validation { field, message }
            if field == "f"
                && message == "Download admission a2 Confirmation was not published at Rename (Filesystem): m"
    ));
}

#[test]
fn error_context_keeps_variants_without_messages() {
    assert!(matches!(
        admission_error_context(PumasError::DownloadRootBusy, "ctx"),
        PumasError::DownloadRootBusy
    ));
    assert!(matches!(
        admission_error_context(PumasError::Json { message: "m".into() }, "ctx"),
        PumasError::Json { message } if message == "ctx: m"
    ));
    assert!(matches!(
        admission_error_context(PumasError::InvalidParams { message: "m".into() }, "ctx"),
        PumasError::InvalidParams { message } if message == "m"
    ));
}

#[test]
fn durable_publication_has_no_admission_outcome() {
    assert!(admission_publication_outcome("a", DownloadAdmissionPhase::Intent, Ok(AtomicPublication::Durable))
        .is_none());
    let outcome = admission_publication_outcome(
        "a",
        DownloadAdmissionPhase::Confirmation,
        Err(AtomicPublishFailure {
            stage: AtomicPublishStage::Staging,
            kind: AtomicPublishFailureKind::Filesystem,
            error: PumasError::Other("x".into()),
            cleanup: StagingCleanup::NotRequired,
        }),
    );
    assert!(matches!(
        outcome,
        Some(DownloadAdmissionTransition::NotPublished {
            phase: DownloadAdmissionPhase::Confirmation,
            stage: AtomicPublishStage::Staging,
            ..
        })
    ));
}

#[test]
fn only_durable_publication_succeeds() {
    assert!(publication_result(Ok(AtomicPublication::Durable)).is_ok());
    assert!(matches!(
        publication_result(Ok(AtomicPublication::PublishedDurabilityUnknown {
            error: PumasError::Other("sync".into())
        })),
        Err(PumasError::Other(m)) if m == "sync"
    ));
    assert!(matches!(
        publication_result(Ok(AtomicPublication::VisibilityUnknown {
            error: PumasError::Other("rename".into()),
            cleanup: StagingCleanup::Failed { error: PumasError::Other("unlink".into()) },
        })),
        Err(PumasError::Other(m)) if m == "rename; staging cleanup also failed: unlink"
    ));
    let failure = AtomicPublishFailure {
        stage: AtomicPublishStage::Staging,
        kind: AtomicPublishFailureKind::Filesystem,
        error: io_fault(),
        cleanup: StagingCleanup::Removed,
    };
    assert!(matches!(publication_result(Err(failure)), Err(PumasError::Io { os_code: Some(13), .. })));
}

#[test]
fn error_text_of_each_variant() {
    assert_eq!(
        PumasError::Validation { field: "a".into(), message: "b".into() }.describe(),
        "a: b"
    );
    assert_eq!(PumasError::DownloadRootBusy.describe(), "Download root is busy");
    assert_eq!(PumasError::Config { message: "c".into() }.describe(), "c");
}

#[test]
fn lost_primary_error_names_the_process_and_port() {
    assert_eq!(
        PumasError::SharedInstanceLost { pid: 42, port: 7070 }.describe(),
        "Lost connection to the primary instance (PID 42, port 7070)"
    );
}
