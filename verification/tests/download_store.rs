//! The download store's operations driven against an in-memory document,
//! with scripted publication outcomes standing in for the filesystem.

use std::cell::{Cell, RefCell};
use std::collections::VecDeque;
use std::rc::Rc;

use pumas_core::error::PumasError;
use pumas_core::inventory::{LifecycleCleanupDisposition, PersistedDownloadInventory};
use pumas_core::keyed::Keyed;
use pumas_core::persistence::DownloadPersistence;
use pumas_core::publication::{
    publication_result, AtomicPublication, AtomicPublishFailure, AtomicPublishFailureKind,
    AtomicPublishStage, StagingCleanup,
};
use pumas_core::publication_steps::{
    begin_admission_run, begin_revocation_run, AdmissionStep, RevocationStep,
};
use pumas_core::store_copy::PublicationPlan;
use pumas_core::store_load::ParsedStoreDocument;
use pumas_core::store_model::{
    persisted_download_matches, DownloadAdmissionDomain, DownloadAdmissionRequest, DownloadRequest,
    DownloadStatus, DownloadStoreData, LegacyRelocationRequest, LifecycleQuarantineDomain,
    PersistedDestinationIdentity, PersistedDownload,
};
use pumas_core::transitions::{
    DownloadAdmissionPhase, DownloadAdmissionTransition, RecoveryRevocation, RecoveryRevocationPhase,
    RecoveryRevocationSource,
};
use uuid::Uuid;

#[derive(Debug, Clone, Copy)]
enum Scripted {
    Durable,
    NotPublished,
    PublishedDurabilityUnknown,
    VisibilityUnknownBeforeEffect,
    VisibilityUnknownAfterEffect,
}

type Disk = Rc<RefCell<Option<DownloadStoreData>>>;

type Publication = Result<AtomicPublication, AtomicPublishFailure>;

/// One owner of the store: its own confirmations, a shared document.
struct Store {
    owner: RefCell<DownloadPersistence>,
    disk: Disk,
    script: RefCell<VecDeque<Scripted>>,
    calls: Cell<usize>,
}

impl Store {
    fn new() -> Self {
        Store::on(Rc::new(RefCell::new(None)))
    }

    fn on(disk: Disk) -> Self {
        Store {
            owner: RefCell::new(DownloadPersistence::new("/data")),
            disk,
            script: RefCell::new(VecDeque::new()),
            calls: Cell::new(0),
        }
    }

    /// A fresh owner of the same document.
    fn fresh(&self) -> Self {
        Store::on(self.disk.clone())
    }

    fn with_script(self, script: impl IntoIterator<Item = Scripted>) -> Self {
        self.script_next(script);
        self
    }

    fn script_next(&self, script: impl IntoIterator<Item = Scripted>) {
        *self.script.borrow_mut() = script.into_iter().collect();
        self.calls.set(0);
    }

    fn calls(&self) -> usize {
        self.calls.get()
    }

    fn read(&self) -> DownloadStoreData {
        match &*self.disk.borrow() {
            Some(doc) => doc.duplicate(),
            None => DownloadStoreData::empty(),
        }
    }

    /// The stored document as read.
    fn parsed(&self) -> ParsedStoreDocument {
        match &*self.disk.borrow() {
            None => ParsedStoreDocument::Missing,
            Some(doc) => {
                let d = doc.duplicate();
                ParsedStoreDocument::Current {
                    schema_version: d.schema_version,
                    downloads: d.downloads,
                    recovery_revocations: d.recovery_revocations,
                    lifecycle_quarantines: d.lifecycle_quarantines,
                    admission_attempts: d.admission_attempts,
                    queue_admissions: d.queue_admissions,
                    released_queue_admissions: d.released_queue_admissions,
                    pending_relocations: d.pending_relocations,
                }
            }
        }
    }

    fn publish(&self, doc: &DownloadStoreData) -> Publication {
        self.calls.set(self.calls.get() + 1);
        let step = self.script.borrow_mut().pop_front().unwrap_or(Scripted::Durable);
        let apply = || *self.disk.borrow_mut() = Some(doc.duplicate());
        match step {
            Scripted::Durable => {
                apply();
                Ok(AtomicPublication::Durable)
            }
            Scripted::NotPublished => Err(AtomicPublishFailure {
                stage: AtomicPublishStage::Staging,
                kind: AtomicPublishFailureKind::Filesystem,
                error: PumasError::Other("injected pre-publication failure".to_string()),
                cleanup: StagingCleanup::NotRequired,
            }),
            Scripted::PublishedDurabilityUnknown => {
                apply();
                Ok(AtomicPublication::PublishedDurabilityUnknown {
                    error: PumasError::Other("injected parent-sync uncertainty".to_string()),
                })
            }
            Scripted::VisibilityUnknownBeforeEffect => Ok(AtomicPublication::VisibilityUnknown {
                error: PumasError::Other("injected rename visibility uncertainty".to_string()),
                cleanup: StagingCleanup::NotRequired,
            }),
            Scripted::VisibilityUnknownAfterEffect => {
                apply();
                Ok(AtomicPublication::VisibilityUnknown {
                    error: PumasError::Other(
                        "injected post-effect rename visibility uncertainty".to_string(),
                    ),
                    cleanup: StagingCleanup::NotRequired,
                })
            }
        }
    }

    fn write(&self, doc: &DownloadStoreData) -> Result<(), PumasError> {
        publication_result(self.publish(doc))
    }

    fn write_plan(&self, plan: PublicationPlan) -> Result<bool, PumasError> {
        for doc in &plan.documents {
            self.write(doc)?;
        }
        match plan.failure {
            Some(error) => Err(error),
            None => Ok(plan.result),
        }
    }

    fn write_changed(&self, doc: Option<DownloadStoreData>) -> Result<bool, PumasError> {
        match doc {
            Some(doc) => self.write(&doc).map(|_| true),
            None => Ok(false),
        }
    }

    fn save(&self, download: &PersistedDownload) -> Result<(), PumasError> {
        let next = self.owner.borrow().save(self.read(), download)?;
        self.write(&next)
    }

    fn remove(&self, id: &str) -> Result<(), PumasError> {
        let next = self.owner.borrow().remove(self.read(), &id.to_string())?;
        self.write_changed(next).map(|_| ())
    }

    fn update_status(&self, id: &str, status: DownloadStatus) -> Result<bool, PumasError> {
        let next = self.owner.borrow().update_status(self.read(), &id.to_string(), status)?;
        self.write_changed(next)
    }

    fn load_all(&self) -> Vec<PersistedDownload> {
        self.owner.borrow().load_all(Ok(self.read()))
    }

    fn load_all_strict(&self) -> Vec<PersistedDownload> {
        self.owner.borrow().load_all_strict(&self.read())
    }

    fn inventory(&self) -> PersistedDownloadInventory {
        self.owner.borrow().lifecycle_inventory_document(self.parsed()).unwrap()
    }

    fn is_revoked(&self, id: &str) -> bool {
        self.owner.borrow().is_revoked(&self.read(), &id.to_string())
    }

    fn revoke_for_recovery(&self, id: &str) -> Result<RecoveryRevocation, PumasError> {
        let owner = self.owner.borrow();
        let id = id.to_string();
        let mut step = begin_revocation_run(owner.revoke_for_recovery(self.read(), &id)?);
        loop {
            match step {
                RevocationStep::Done(outcome) => return Ok(outcome),
                RevocationStep::Publish(run) => {
                    let publication = self.publish(run.pending_document());
                    step = owner.advance_revocation(run, &id, publication)?;
                }
            }
        }
    }

    fn revoke(&self, id: &str) -> Result<(), PumasError> {
        self.revoke_for_recovery(id)?.into_legacy_result()
    }

    fn admit_download(
        &self,
        attempt_id: &str,
        request: &DownloadAdmissionRequest,
    ) -> Result<DownloadAdmissionTransition, PumasError> {
        let plan = self.owner.borrow().admit_download_document(self.parsed(), attempt_id, request)?;
        let mut run = begin_admission_run(plan);
        loop {
            let publication = self.publish(run.pending_document());
            let step =
                self.owner.borrow_mut().advance_admission(run, attempt_id, request, publication)?;
            match step {
                AdmissionStep::Publish(next) => run = next,
                AdmissionStep::Done(transition) => return Ok(transition),
            }
        }
    }

    fn update_admitted_status(
        &self,
        id: &str,
        attempt_id: &str,
        status: DownloadStatus,
    ) -> Result<bool, PumasError> {
        let next = self.owner.borrow().update_admitted_status(
            self.read(),
            &id.to_string(),
            &attempt_id.to_string(),
            status,
        )?;
        self.write_changed(next)
    }

    fn settle_queue_admission(&self, id: &str, attempt_id: &str) -> Result<bool, PumasError> {
        let next = self.owner.borrow().settle_queue_admission(
            self.read(),
            &id.to_string(),
            &attempt_id.to_string(),
        )?;
        self.write_changed(next)
    }

    fn begin_lifecycle_quarantine(
        &self,
        snapshot: &PersistedDownload,
        domain: LifecycleQuarantineDomain,
        sticky_failure: bool,
    ) -> Result<(), PumasError> {
        let plan = self
            .owner
            .borrow()
            .begin_lifecycle_quarantine(self.read(), snapshot, domain, sticky_failure)?;
        self.write_plan(plan).map(|_| ())
    }

    fn verify_lifecycle_quarantine(&self, id: &str) -> Result<bool, PumasError> {
        let plan = self.owner.borrow().verify_lifecycle_quarantine(self.read(), &id.to_string())?;
        let verified = self.write_plan(plan)?;
        if verified {
            self.owner.borrow_mut().confirm_cleanup(id);
        }
        Ok(verified)
    }

    fn mark_lifecycle_quarantine_failed(&self, id: &str) -> Result<bool, PumasError> {
        let next = self
            .owner
            .borrow()
            .mark_lifecycle_quarantine_failed(self.read(), &id.to_string())?;
        self.write_changed(next)
    }

    fn remove_clean_lifecycle_quarantine(&self, id: &str) -> Result<bool, PumasError> {
        let next = self
            .owner
            .borrow()
            .remove_clean_lifecycle_quarantine(self.read(), &id.to_string())?;
        self.write_changed(next)
    }

    fn reconcile_lifecycle_inventory_strict(&self) -> Result<(), PumasError> {
        let doc = self.owner.borrow().reconcile_lifecycle_inventory_strict(self.read())?;
        self.write(&doc)?;
        self.owner.borrow_mut().record_reconciliation(&doc);
        Ok(())
    }

    fn begin_legacy_relocation(
        &self,
        attempt_id: &str,
        expected: &PersistedDownload,
        request: &LegacyRelocationRequest,
    ) -> Result<Publication, PumasError> {
        let next = self
            .owner
            .borrow()
            .begin_legacy_relocation(self.read(), attempt_id, expected, request)?;
        Ok(self.publish(&next))
    }

    fn finish_legacy_relocation(&self, id: &str, attempt_id: &str) -> Result<Publication, PumasError> {
        let next = self.owner.borrow().finish_legacy_relocation_document(
            self.parsed(),
            &id.to_string(),
            &attempt_id.to_string(),
        )?;
        Ok(self.publish(&next))
    }

    fn abort_legacy_relocation(&self, id: &str, attempt_id: &str) -> Result<Publication, PumasError> {
        let next = self.owner.borrow().abort_legacy_relocation_document(
            self.parsed(),
            &id.to_string(),
            &attempt_id.to_string(),
        )?;
        Ok(self.publish(&next))
    }
}

fn is_durable(p: &Publication) -> bool {
    matches!(p, Ok(AtomicPublication::Durable))
}

fn entry<'a, V>(entries: &'a [Keyed<V>], key: &str) -> &'a V {
    &entries.iter().find(|e| e.key == key).expect("entry is present").value
}

fn has_key<V>(entries: &[Keyed<V>], key: &str) -> bool {
    entries.iter().any(|e| e.key == key)
}

fn make_request() -> DownloadRequest {
    DownloadRequest {
        repo_id: "test/model".to_string(),
        family: "test".to_string(),
        official_name: "Test Model".to_string(),
        model_type: Some("llm".to_string()),
        quant: Some("Q4_K_M".to_string()),
        filename: None,
        filenames: None,
        pipeline_tag: None,
        bundle_format: None,
        pipeline_class: None,
        release_date: None,
        download_url: None,
        model_card_json: None,
        license_status: None,
    }
}

fn download(download_id: &str, dest_dir: &str) -> PersistedDownload {
    PersistedDownload {
        download_id: download_id.to_string(),
        repo_id: "test/model".to_string(),
        filename: "model.gguf".to_string(),
        filenames: vec!["model.gguf".to_string()],
        dest_dir: dest_dir.to_string(),
        total_bytes: Some(1000),
        status: DownloadStatus::Paused,
        download_request: make_request(),
        created_at: "2025-01-01T00:00:00Z".to_string(),
        known_sha256: None,
        huggingface_evidence: None,
    }
}

fn persisted(download_id: &str) -> PersistedDownload {
    download(download_id, "/managed/model")
}

fn destination(relative_target: &str) -> PersistedDestinationIdentity {
    PersistedDestinationIdentity {
        library_root: "root-device-7-inode-11".to_string(),
        relative_target: relative_target.to_string(),
    }
}

fn admission_request(download_id: &str) -> DownloadAdmissionRequest {
    DownloadAdmissionRequest {
        snapshot: persisted(download_id),
        domain: DownloadAdmissionDomain::Ambient,
        destination: destination("llm/test/model"),
        requested_payload_files: vec!["model.gguf".to_string()],
        execution_files: vec!["README.md".to_string(), "model.gguf".to_string()],
    }
}

fn legacy_relocation_request(target_dir: &str) -> LegacyRelocationRequest {
    LegacyRelocationRequest {
        source: destination("llm/test/model"),
        target: destination("llm/new/model"),
        target_dir: target_dir.to_string(),
        model_type: Some("llm".into()),
        family: Some("new".into()),
    }
}

fn bare_relocation_request(target_dir: &str) -> LegacyRelocationRequest {
    LegacyRelocationRequest { model_type: None, family: None, ..legacy_relocation_request(target_dir) }
}

fn new_attempt() -> String {
    Uuid::new_v4().to_string()
}

#[test]
fn test_save_and_load() {
    let store = Store::new();
    store.save(&download("dl-1", "/tmp/lib")).unwrap();
    let loaded = store.load_all();
    assert_eq!(loaded.len(), 1);
    assert_eq!(loaded[0].download_id, "dl-1");
    assert_eq!(loaded[0].status, DownloadStatus::Paused);
}

#[test]
fn test_upsert() {
    let store = Store::new();
    let mut entry = download("dl-1", "/tmp/lib");
    store.save(&entry).unwrap();
    entry.status = DownloadStatus::Error;
    store.save(&entry).unwrap();
    let loaded = store.load_all();
    assert_eq!(loaded.len(), 1);
    assert_eq!(loaded[0].status, DownloadStatus::Error);
}

#[test]
fn test_remove() {
    let store = Store::new();
    store.save(&download("dl-1", "/tmp/lib")).unwrap();
    assert_eq!(store.load_all().len(), 1);
    store.remove("dl-1").unwrap();
    assert_eq!(store.load_all().len(), 0);
}

#[test]
fn test_load_empty() {
    let store = Store::new();
    assert_eq!(store.load_all().len(), 0);
}

#[test]
fn unreadable_store_lists_nothing() {
    let owner = DownloadPersistence::new("/data");
    assert!(owner.load_all(Err(PumasError::Json { message: "bad".into() })).is_empty());
    assert_eq!(owner.path(), "/data/downloads.json");
}

#[test]
fn revoked_download_rejects_stale_save_status_and_relocation() {
    let store = Store::new();
    let stale = download("dl-revoked", "/tmp/lib/model");
    store.save(&stale).unwrap();
    store.revoke("dl-revoked").unwrap();
    assert!(store.save(&stale).is_err());
    assert!(!store.update_status("dl-revoked", DownloadStatus::Error).unwrap());
    assert!(store
        .begin_legacy_relocation(&new_attempt(), &stale, &legacy_relocation_request("/tmp/lib/elsewhere"))
        .is_err());
    assert!(store.load_all().is_empty());
}

#[test]
fn absent_row_requires_unknown_then_durable_publications() {
    let store = Store::new().with_script([Scripted::Durable, Scripted::Durable]);
    let outcome = store.revoke_for_recovery("dl-absent").unwrap();
    assert!(matches!(
        outcome,
        RecoveryRevocation::Durable { source: RecoveryRevocationSource::NewlyPublished, .. }
    ));
    assert_eq!(store.calls(), 2);
    assert!(matches!(
        store.fresh().revoke_for_recovery("dl-absent").unwrap(),
        RecoveryRevocation::Durable { source: RecoveryRevocationSource::Persisted, .. }
    ));
}

#[test]
fn unknown_revocation_survives_a_fresh_owner_and_must_be_republished() {
    let store = Store::new();
    let entry = persisted("dl-unknown");
    store.save(&entry).unwrap();
    let uncertain = store.with_script([Scripted::PublishedDurabilityUnknown]);
    let outcome = uncertain.revoke_for_recovery("dl-unknown").unwrap();
    assert!(matches!(
        outcome,
        RecoveryRevocation::PublishedDurabilityUnknown { phase: RecoveryRevocationPhase::Intent, .. }
    ));
    let fresh = uncertain.fresh();
    assert!(fresh.is_revoked("dl-unknown"));
    assert!(fresh.save(&entry).is_err());
    assert!(matches!(
        fresh.revoke_for_recovery("dl-unknown").unwrap(),
        RecoveryRevocation::Durable { source: RecoveryRevocationSource::NewlyPublished, .. }
    ));
}

#[test]
fn failed_confirmation_leaves_unknown_instead_of_promoting_absence() {
    let store = Store::new().with_script([Scripted::Durable, Scripted::NotPublished]);
    let outcome = store.revoke_for_recovery("dl-confirmation").unwrap();
    assert!(matches!(
        outcome,
        RecoveryRevocation::NotPublished { phase: RecoveryRevocationPhase::Confirmation, .. }
    ));
    let fresh = store.fresh();
    assert!(fresh.is_revoked("dl-confirmation"));
    assert!(matches!(
        fresh.revoke_for_recovery("dl-confirmation").unwrap(),
        RecoveryRevocation::Durable { source: RecoveryRevocationSource::NewlyPublished, .. }
    ));
}

fn confirmation_ambiguity_outcomes(
    download_id: &str,
    confirmation: Scripted,
) -> (RecoveryRevocation, RecoveryRevocation) {
    let entry = persisted(download_id);
    let first = Store::new();
    first.save(&entry).unwrap();
    let store = first.fresh().with_script([Scripted::Durable, confirmation]);
    let initiating = store.revoke_for_recovery(download_id).unwrap();
    let fresh = store.fresh();
    assert!(fresh.is_revoked(download_id));
    assert!(fresh.save(&entry).is_err());
    let retried = fresh.revoke_for_recovery(download_id).unwrap();
    (initiating, retried)
}

#[test]
fn confirmation_parent_sync_unknown_never_succeeds_the_initiating_call() {
    let (initiating, retried) = confirmation_ambiguity_outcomes(
        "dl-confirmation-parent-sync",
        Scripted::PublishedDurabilityUnknown,
    );
    assert!(matches!(
        initiating,
        RecoveryRevocation::PublishedDurabilityUnknown {
            phase: RecoveryRevocationPhase::Confirmation,
            ..
        }
    ));
    assert!(matches!(
        retried,
        RecoveryRevocation::Durable { source: RecoveryRevocationSource::Persisted, .. }
    ));
}

#[test]
fn confirmation_pre_effect_visibility_unknown_retries_from_durable_intent() {
    let (initiating, retried) = confirmation_ambiguity_outcomes(
        "dl-confirmation-before-effect",
        Scripted::VisibilityUnknownBeforeEffect,
    );
    assert!(matches!(
        initiating,
        RecoveryRevocation::VisibilityUnknown { phase: RecoveryRevocationPhase::Confirmation, .. }
    ));
    assert!(matches!(
        retried,
        RecoveryRevocation::Durable { source: RecoveryRevocationSource::NewlyPublished, .. }
    ));
}

#[test]
fn confirmation_post_effect_visibility_unknown_never_succeeds_the_initiating_call() {
    let (initiating, retried) = confirmation_ambiguity_outcomes(
        "dl-confirmation-after-effect",
        Scripted::VisibilityUnknownAfterEffect,
    );
    assert!(matches!(
        initiating,
        RecoveryRevocation::VisibilityUnknown { phase: RecoveryRevocationPhase::Confirmation, .. }
    ));
    assert!(matches!(
        retried,
        RecoveryRevocation::Durable { source: RecoveryRevocationSource::Persisted, .. }
    ));
}

#[test]
fn prepublication_and_visibility_unknown_outcomes_never_admit_recovery() {
    for scripted in [Scripted::NotPublished, Scripted::VisibilityUnknownBeforeEffect] {
        let first = Store::new();
        first.save(&persisted("dl-unpublished")).unwrap();
        let store = first.fresh().with_script([scripted]);
        let outcome = store.revoke_for_recovery("dl-unpublished").unwrap();
        assert!(matches!(
            outcome,
            RecoveryRevocation::NotPublished { phase: RecoveryRevocationPhase::Intent, .. }
                | RecoveryRevocation::VisibilityUnknown {
                    phase: RecoveryRevocationPhase::Intent,
                    ..
                }
        ));
        assert_eq!(store.fresh().load_all_strict().len(), 1);
    }
}

#[test]
fn revocation_preserves_the_closed_prepublication_failure_classification() {
    let store = Store::new().with_script([Scripted::NotPublished]);
    let outcome = store.revoke_for_recovery("dl-classified").unwrap();
    assert!(matches!(
        outcome,
        RecoveryRevocation::NotPublished {
            phase: RecoveryRevocationPhase::Intent,
            stage: AtomicPublishStage::Staging,
            kind: AtomicPublishFailureKind::Filesystem,
            ..
        }
    ));
}

#[test]
fn post_effect_visibility_unknown_persists_fail_closed_for_a_fresh_owner() {
    let first = Store::new();
    let entry = persisted("dl-visible-unknown");
    first.save(&entry).unwrap();
    let store = first.fresh().with_script([Scripted::VisibilityUnknownAfterEffect]);
    let outcome = store.revoke_for_recovery("dl-visible-unknown").unwrap();
    assert!(matches!(
        outcome,
        RecoveryRevocation::VisibilityUnknown { phase: RecoveryRevocationPhase::Intent, .. }
    ));
    let fresh = store.fresh();
    assert!(fresh.is_revoked("dl-visible-unknown"));
    assert!(fresh.save(&entry).is_err());
}

#[test]
fn durable_revoke_persists_a_confirmed_tombstone_for_a_fresh_owner() {
    let store = Store::new();
    store.save(&persisted("dl-durable")).unwrap();
    let outcome = store.revoke_for_recovery("dl-durable").unwrap();
    assert!(matches!(
        outcome,
        RecoveryRevocation::Durable { source: RecoveryRevocationSource::NewlyPublished, .. }
    ));
    let fresh = store.fresh();
    assert!(fresh.load_all_strict().is_empty());
    assert!(matches!(
        fresh.revoke_for_recovery("dl-durable").unwrap(),
        RecoveryRevocation::Durable { source: RecoveryRevocationSource::Persisted, .. }
    ));
}

#[test]
fn revocation_failure_messages_name_the_phase() {
    let store = Store::new().with_script([Scripted::PublishedDurabilityUnknown]);
    match store.revoke("dl-message") {
        Err(PumasError::Other(message)) => assert_eq!(
            message,
            "Recovery revocation Intent durability is unknown: injected parent-sync uncertainty"
        ),
        other => panic!("unexpected {other:?}"),
    }
    let store = Store::new().with_script([Scripted::Durable, Scripted::NotPublished]);
    match store.revoke("dl-message") {
        Err(PumasError::Other(message)) => assert_eq!(
            message,
            "Recovery revocation Confirmation publication failed: injected pre-publication failure"
        ),
        other => panic!("unexpected {other:?}"),
    }
}

#[test]
fn ambient_quarantine_exclusively_owns_the_snapshot_and_rejects_stale_writers() {
    let store = Store::new();
    let entry = persisted("dl-ambient-quarantine");
    store.save(&entry).unwrap();
    store.begin_lifecycle_quarantine(&entry, LifecycleQuarantineDomain::Ambient, true).unwrap();
    let inventory = store.inventory();
    assert!(inventory.downloads.is_empty());
    let q = entry_of(&inventory, "dl-ambient-quarantine");
    assert_eq!(q.disposition, LifecycleCleanupDisposition::Pending);
    assert_eq!(q.snapshot.download_id, entry.download_id);
    assert!(q.sticky_failure);
    assert!(store.save(&entry).is_err());
    assert!(!store.update_status("dl-ambient-quarantine", DownloadStatus::Paused).unwrap());
    assert!(store
        .begin_legacy_relocation(&new_attempt(), &entry, &legacy_relocation_request("/tmp/moved"))
        .is_err());
    assert!(store.verify_lifecycle_quarantine("dl-ambient-quarantine").unwrap());
    let fresh_store = store.fresh();
    fresh_store.reconcile_lifecycle_inventory_strict().unwrap();
    let fresh = fresh_store.inventory();
    assert_eq!(
        entry_of(&fresh, "dl-ambient-quarantine").disposition,
        LifecycleCleanupDisposition::Verified
    );
}

fn entry_of<'a>(
    inventory: &'a PersistedDownloadInventory,
    key: &str,
) -> &'a pumas_core::inventory::LifecycleQuarantine {
    entry(&inventory.quarantines, key)
}

#[test]
fn recovery_quarantine_preserves_the_durable_revocation_tombstone() {
    let store = Store::new();
    let entry = persisted("dl-recovery-quarantine");
    store.save(&entry).unwrap();
    store.revoke("dl-recovery-quarantine").unwrap();
    store.begin_lifecycle_quarantine(&entry, LifecycleQuarantineDomain::Recovery, true).unwrap();
    assert!(store.is_revoked("dl-recovery-quarantine"));
    assert!(store.verify_lifecycle_quarantine("dl-recovery-quarantine").unwrap());
    let fresh_store = store.fresh();
    fresh_store.reconcile_lifecycle_inventory_strict().unwrap();
    let inventory = fresh_store.inventory();
    let quarantine = entry_of(&inventory, "dl-recovery-quarantine");
    assert_eq!(quarantine.domain, LifecycleQuarantineDomain::Recovery);
    assert!(quarantine.sticky_failure);
    assert_eq!(quarantine.disposition, LifecycleCleanupDisposition::Verified);
    assert!(fresh_store.is_revoked("dl-recovery-quarantine"));
}

#[test]
fn quarantine_publication_ambiguity_never_authorizes_the_initiating_owner() {
    let first = Store::new();
    let entry = persisted("dl-quarantine-unknown");
    first.save(&entry).unwrap();
    let pending_store =
        first.fresh().with_script([Scripted::Durable, Scripted::PublishedDurabilityUnknown]);
    assert!(pending_store
        .begin_lifecycle_quarantine(&entry, LifecycleQuarantineDomain::Ambient, true)
        .is_err());
    assert_eq!(pending_store.calls(), 2);
    let pending = pending_store.fresh().inventory();
    assert_eq!(
        entry_of(&pending, "dl-quarantine-unknown").disposition,
        LifecycleCleanupDisposition::Pending
    );
    let verified_store =
        first.fresh().with_script([Scripted::Durable, Scripted::PublishedDurabilityUnknown]);
    assert!(verified_store.verify_lifecycle_quarantine("dl-quarantine-unknown").is_err());
    assert_eq!(verified_store.calls(), 2);
}

#[test]
fn failed_pending_intent_leaves_the_ordinary_row_owned_by_a_fresh_writer() {
    let first = Store::new();
    let entry = persisted("dl-quarantine-not-published");
    first.save(&entry).unwrap();
    let store = first.fresh().with_script([Scripted::NotPublished]);
    assert!(store
        .begin_lifecycle_quarantine(&entry, LifecycleQuarantineDomain::Ambient, false)
        .is_err());
    assert_eq!(store.calls(), 1);
    let fresh = store.fresh().inventory();
    assert_eq!(fresh.downloads.len(), 1);
    assert!(fresh.quarantines.is_empty());
}

#[test]
fn clean_pending_quarantine_is_removed_durably_before_cancelled_publication() {
    let store = Store::new();
    let entry = persisted("dl-clean-cancel");
    store.save(&entry).unwrap();
    store.begin_lifecycle_quarantine(&entry, LifecycleQuarantineDomain::Ambient, false).unwrap();
    let pending = store.inventory();
    assert!(!entry_of(&pending, "dl-clean-cancel").sticky_failure);
    assert!(store.remove_clean_lifecycle_quarantine("dl-clean-cancel").unwrap());
    let fresh = store.fresh().inventory();
    assert!(fresh.downloads.is_empty());
    assert!(fresh.quarantines.is_empty());
}

#[test]
fn pending_cleanup_can_be_promoted_to_sticky_failure_but_never_downgraded() {
    let store = Store::new();
    let entry = persisted("dl-late-failure");
    store.save(&entry).unwrap();
    store.begin_lifecycle_quarantine(&entry, LifecycleQuarantineDomain::Ambient, false).unwrap();
    assert!(store.mark_lifecycle_quarantine_failed("dl-late-failure").unwrap());
    let failed = store.inventory();
    assert!(entry_of(&failed, "dl-late-failure").sticky_failure);
    assert!(store.remove_clean_lifecycle_quarantine("dl-late-failure").is_err());
    assert!(store.verify_lifecycle_quarantine("dl-late-failure").unwrap());
}

#[test]
fn legacy_relocation_refuses_existing_foreign_source_or_target_owners() {
    for at_target in [false, true] {
        for quarantined in [false, true] {
            let store = Store::new();
            let source = persisted("source");
            store.save(&source).unwrap();
            let request = bare_relocation_request("/tmp/lib/new");
            let foreign_dir = if at_target { request.target_dir.clone() } else { source.dest_dir.clone() };
            let foreign = download("foreign", &foreign_dir);
            store.save(&foreign).unwrap();
            if quarantined {
                store
                    .begin_lifecycle_quarantine(&foreign, LifecycleQuarantineDomain::Ambient, true)
                    .unwrap();
            }
            assert!(store.begin_legacy_relocation(&new_attempt(), &source, &request).is_err());
            let inventory = store.inventory();
            assert!(inventory.pending_relocations.is_empty());
            assert!(inventory.downloads.iter().any(|row| row.download_id == "source"));
        }
    }
}

#[test]
fn legacy_relocation_publication_uncertainty_preserves_valid_restart_state() {
    for abort in [false, true] {
        for after_effect in [false, true] {
            let store = Store::new();
            let source = persisted("relocation");
            store.save(&source).unwrap();
            let request = bare_relocation_request("/tmp/lib/new");
            let attempt = new_attempt();
            assert!(is_durable(&store.begin_legacy_relocation(&attempt, &source, &request).unwrap()));
            store.script_next([if after_effect {
                Scripted::PublishedDurabilityUnknown
            } else {
                Scripted::VisibilityUnknownBeforeEffect
            }]);
            let outcome = if abort {
                store.abort_legacy_relocation(&source.download_id, &attempt)
            } else {
                store.finish_legacy_relocation(&source.download_id, &attempt)
            }
            .unwrap();
            assert!(!is_durable(&outcome));
            let fresh = store.fresh();
            let inventory = fresh.inventory();
            if after_effect {
                assert!(inventory.pending_relocations.is_empty());
                assert_eq!(
                    inventory.downloads[0].dest_dir,
                    if abort { source.dest_dir.clone() } else { request.target_dir.clone() }
                );
                assert!(fresh.finish_legacy_relocation("relocation", &attempt).is_err());
            } else {
                assert!(inventory.downloads.is_empty());
                assert!(has_key(&inventory.pending_relocations, "relocation"));
            }
        }
    }
}

#[test]
fn uncertain_relocation_intent_never_exposes_source_as_resumable() {
    let first = Store::new();
    let source = persisted("relocation");
    first.save(&source).unwrap();
    let request = bare_relocation_request("/tmp/lib/new");
    let attempt = new_attempt();
    let uncertain = first.fresh().with_script([Scripted::PublishedDurabilityUnknown]);
    assert!(matches!(
        uncertain.begin_legacy_relocation(&attempt, &source, &request).unwrap(),
        Ok(AtomicPublication::PublishedDurabilityUnknown { .. })
    ));
    let fresh = uncertain.fresh();
    fresh.reconcile_lifecycle_inventory_strict().unwrap();
    assert!(fresh.load_all_strict().is_empty());
    let inventory = fresh.inventory();
    assert!(entry(&inventory.pending_relocations, "relocation").request.same_as(&request));
    assert!(is_durable(&fresh.abort_legacy_relocation("relocation", &attempt).unwrap()));
    assert_eq!(fresh.load_all_strict()[0].dest_dir, source.dest_dir);
}

#[test]
fn legacy_relocation_parks_both_destinations_and_publishes_only_exact_target() {
    let store = Store::new();
    let source = persisted("relocating");
    store.save(&source).unwrap();
    let request = legacy_relocation_request("/tmp/lib/new");
    let attempt = new_attempt();
    let mut stale = persisted("relocating");
    stale.repo_id = "wrong/repo".into();
    assert!(store.begin_legacy_relocation(&attempt, &stale, &request).is_err());
    assert!(is_durable(&store.begin_legacy_relocation(&attempt, &source, &request).unwrap()));
    let fresh = store.fresh();
    assert!(fresh.load_all_strict().is_empty());
    let inventory = fresh.inventory();
    let parked = entry(&inventory.pending_relocations, "relocating");
    assert!(parked.request.same_as(&request));
    assert_eq!(parked.snapshot.dest_dir, source.dest_dir);
    for identity in [&request.source, &request.target] {
        let mut admission = admission_request("intruder");
        admission.destination = identity.duplicate();
        assert!(fresh.admit_download(&new_attempt(), &admission).is_err());
    }
    assert!(fresh.save(&source).is_err());
    assert!(fresh.remove(&source.download_id).is_err());
    assert!(fresh.update_status(&source.download_id, DownloadStatus::Error).is_err());
    assert!(fresh.revoke(&source.download_id).is_err());
    assert!(fresh
        .begin_lifecycle_quarantine(&source, LifecycleQuarantineDomain::Ambient, false)
        .is_err());
    assert!(fresh.finish_legacy_relocation(&source.download_id, &new_attempt()).is_err());
    assert!(is_durable(&fresh.finish_legacy_relocation(&source.download_id, &attempt).unwrap()));
    let after = fresh.fresh().load_all_strict();
    let mut expected = persisted("relocating");
    expected.dest_dir = request.target_dir.clone();
    expected.download_request.model_type = request.model_type.clone();
    expected.download_request.family = request.family.clone().unwrap();
    assert!(persisted_download_matches(&after[0], &expected));
    assert!(fresh.finish_legacy_relocation(&expected.download_id, &attempt).is_err());
}

#[test]
fn admitted_status_update_requires_confirmed_exact_owner_and_preserves_request() {
    let store = Store::new();
    let attempt = new_attempt();
    let request = admission_request("status");
    assert!(matches!(
        store.admit_download(&attempt, &request).unwrap(),
        DownloadAdmissionTransition::Durable { .. }
    ));
    let before = entry(&store.inventory().queue_admissions, "status").duplicate();
    assert!(!store.update_admitted_status("status", &new_attempt(), DownloadStatus::Error).unwrap());
    let fresh = store.fresh();
    assert!(!fresh.update_admitted_status("status", &attempt, DownloadStatus::Paused).unwrap());
    assert!(!store.update_status("status", DownloadStatus::Error).unwrap());
    assert!(store.update_admitted_status("status", &attempt, DownloadStatus::Paused).unwrap());
    let inventory = store.inventory();
    let mut expected = persisted("status");
    expected.status = DownloadStatus::Paused;
    assert!(persisted_download_matches(&inventory.downloads[0], &expected));
    let after = entry(&inventory.queue_admissions, "status");
    assert_eq!(after.attempt_id, before.attempt_id);
    assert_eq!(after.position.ordinal, before.position.ordinal);
    assert!(after.destination.same_as(&before.destination));
    assert_eq!(after.execution_files, before.execution_files);
    for terminal in [DownloadStatus::Cancelling, DownloadStatus::Completed, DownloadStatus::Cancelled] {
        assert!(store.update_admitted_status("status", &attempt, terminal).is_err());
    }
    store.script_next([Scripted::PublishedDurabilityUnknown]);
    assert!(store.update_admitted_status("status", &attempt, DownloadStatus::Error).is_err());
    assert!(store.update_admitted_status("status", &attempt, DownloadStatus::Error).unwrap());
    store
        .begin_lifecycle_quarantine(&request.snapshot, LifecycleQuarantineDomain::Ambient, true)
        .unwrap();
    assert!(!store.update_admitted_status("status", &attempt, DownloadStatus::Paused).unwrap());
    store.verify_lifecycle_quarantine("status").unwrap();
    store.settle_queue_admission("status", &attempt).unwrap();
    assert!(!store.update_admitted_status("status", &attempt, DownloadStatus::Paused).unwrap());
}

#[test]
fn pending_intent_retry_preserves_sticky_failure_provenance() {
    let store = Store::new().with_script([Scripted::PublishedDurabilityUnknown]);
    let snapshot = persisted("sticky-intent");
    assert!(store
        .begin_lifecycle_quarantine(&snapshot, LifecycleQuarantineDomain::Ambient, true)
        .is_err());
    store.begin_lifecycle_quarantine(&snapshot, LifecycleQuarantineDomain::Ambient, false).unwrap();
    let inventory = store.inventory();
    let q = entry_of(&inventory, "sticky-intent");
    assert!(q.sticky_failure);
    assert_eq!(q.snapshot.status, DownloadStatus::Error);
}

#[test]
fn released_attempt_cannot_authorize_a_different_download() {
    let store = Store::new();
    let attempt = new_attempt();
    store.admit_download(&attempt, &admission_request("first")).unwrap();
    store.settle_queue_admission("first", &attempt).unwrap();
    assert!(store.admit_download(&attempt, &admission_request("second")).is_err());
    assert!(store.load_all_strict().is_empty());
}

#[test]
fn pending_and_sticky_quarantine_retries_require_a_confirmed_barrier() {
    for transition in ["pending", "sticky"] {
        let store = Store::new();
        let snapshot = persisted("cleanup");
        if transition == "sticky" {
            store
                .begin_lifecycle_quarantine(&snapshot, LifecycleQuarantineDomain::Ambient, false)
                .unwrap();
        }
        let script = if transition == "pending" {
            vec![Scripted::Durable, Scripted::PublishedDurabilityUnknown, Scripted::NotPublished]
        } else {
            vec![Scripted::PublishedDurabilityUnknown, Scripted::NotPublished]
        };
        let uncertain = store.with_script(script);
        for _ in 0..2 {
            let failed = if transition == "pending" {
                uncertain
                    .begin_lifecycle_quarantine(&snapshot, LifecycleQuarantineDomain::Ambient, false)
                    .is_err()
            } else {
                uncertain.mark_lifecycle_quarantine_failed("cleanup").is_err()
            };
            assert!(failed, "{transition} must not infer durability from persisted bytes");
        }
    }
}

#[test]
fn conflicting_save_is_rejected_before_overwriting_a_hidden_admission() {
    let store = Store::new().with_script([Scripted::PublishedDurabilityUnknown]);
    let request = admission_request("hidden");
    assert!(matches!(
        store.admit_download(&new_attempt(), &request).unwrap(),
        DownloadAdmissionTransition::PublishedDurabilityUnknown { .. }
    ));
    assert!(store.save(&request.snapshot).is_err());
    let fresh = store.fresh().inventory();
    assert!(has_key(&fresh.hidden_admissions, "hidden"));
    assert!(fresh.downloads.is_empty());
}

#[test]
fn exact_release_survives_restart_without_orphaning_a_cross_domain_follower() {
    let store = Store::new();
    let first = new_attempt();
    store.admit_download(&first, &admission_request("first")).unwrap();
    let mut request = admission_request("second");
    request.domain = DownloadAdmissionDomain::Recovery;
    store.admit_download(&new_attempt(), &request).unwrap();
    assert!(store.settle_queue_admission("first", &new_attempt()).is_err());
    let uncertain = store.with_script([Scripted::PublishedDurabilityUnknown, Scripted::NotPublished]);
    assert!(uncertain.settle_queue_admission("first", &first).is_err());
    assert!(uncertain.load_all_strict().iter().all(|s| s.download_id != "first"));
    assert!(uncertain.settle_queue_admission("first", &first).is_err());
    let fresh = uncertain.fresh();
    assert!(fresh.settle_queue_admission("first", &first).unwrap());
    fresh.reconcile_lifecycle_inventory_strict().unwrap();
    let inventory = fresh.inventory();
    assert_eq!(inventory.downloads.len(), 1);
    assert_eq!(inventory.downloads[0].download_id, "second");
    let second = entry(&inventory.queue_admissions, "second");
    assert_eq!(second.position.ordinal, 1);
    assert_eq!(second.position.predecessor.as_ref().unwrap().admission_attempt_id, first);
    assert!(fresh.settle_queue_admission("first", &first).unwrap());
    assert!(!fresh.settle_queue_admission("absent", &first).unwrap());
}

#[test]
fn cleanup_retry_and_restart_require_a_confirmed_barrier() {
    let store = Store::new();
    store
        .begin_lifecycle_quarantine(&persisted("cleanup"), LifecycleQuarantineDomain::Ambient, true)
        .unwrap();
    let uncertain = store.with_script([
        Scripted::Durable,
        Scripted::PublishedDurabilityUnknown,
        Scripted::NotPublished,
    ]);
    assert!(uncertain.verify_lifecycle_quarantine("cleanup").is_err());
    assert!(uncertain.verify_lifecycle_quarantine("cleanup").is_err());
    let fresh = uncertain.fresh();
    assert_eq!(
        entry_of(&fresh.inventory(), "cleanup").disposition,
        LifecycleCleanupDisposition::Pending
    );
    fresh.reconcile_lifecycle_inventory_strict().unwrap();
    assert_eq!(
        entry_of(&fresh.inventory(), "cleanup").disposition,
        LifecycleCleanupDisposition::Verified
    );
}

#[test]
fn legacy_mutations_cannot_release_or_relocate_queue_owned_downloads() {
    for operation in ["quarantine_drift", "save", "remove", "revoke", "relocate", "clean_quarantine"] {
        let store = Store::new();
        let request = admission_request("queued");
        store.admit_download(&new_attempt(), &request).unwrap();
        let rejected = match operation {
            "quarantine_drift" => {
                let stale = download("queued", "/tmp/lib/other");
                store
                    .begin_lifecycle_quarantine(&stale, LifecycleQuarantineDomain::Ambient, false)
                    .is_err()
            }
            "save" => store.save(&download("queued", "/tmp/lib/other")).is_err(),
            "remove" => store.remove("queued").is_err(),
            "revoke" => store.revoke("queued").is_err(),
            "relocate" => store
                .begin_legacy_relocation(
                    &new_attempt(),
                    &request.snapshot,
                    &legacy_relocation_request("/tmp/lib/other"),
                )
                .is_err(),
            _ => {
                store
                    .begin_lifecycle_quarantine(
                        &request.snapshot,
                        LifecycleQuarantineDomain::Ambient,
                        false,
                    )
                    .unwrap();
                store.remove_clean_lifecycle_quarantine("queued").is_err()
            }
        };
        assert!(rejected, "{operation} must require an exact queue transition");
        let fresh = store.fresh();
        fresh.reconcile_lifecycle_inventory_strict().unwrap();
        let inventory = fresh.inventory();
        assert!(has_key(&inventory.queue_admissions, "queued"));
        if operation != "clean_quarantine" {
            assert_eq!(inventory.downloads[0].dest_dir, request.snapshot.dest_dir);
        }
    }
}

#[test]
fn cross_domain_admissions_share_the_physical_destination_queue() {
    let store = Store::new();
    let first = new_attempt();
    store.admit_download(&first, &admission_request("first")).unwrap();
    let mut request = admission_request("second");
    request.domain = DownloadAdmissionDomain::Recovery;
    let outcome = store.admit_download(&new_attempt(), &request).unwrap();
    let DownloadAdmissionTransition::Durable { admission } = outcome else {
        panic!("second admission must be durable");
    };
    assert_eq!(admission.position.ordinal, 1);
    let predecessor = admission.position.predecessor.unwrap();
    assert_eq!(predecessor.download_id, "first");
    assert_eq!(predecessor.admission_attempt_id, first);
}

#[test]
fn admission_requires_two_confirmed_publications_before_becoming_public() {
    let store = Store::new().with_script([Scripted::Durable, Scripted::PublishedDurabilityUnknown]);
    let attempt_id = new_attempt();
    let request = admission_request("dl-admission-unknown");
    let outcome = store.admit_download(&attempt_id, &request).expect("store validation must succeed");
    assert!(matches!(
        outcome,
        DownloadAdmissionTransition::PublishedDurabilityUnknown {
            phase: DownloadAdmissionPhase::Confirmation,
            ..
        }
    ));
    let inventory = store.fresh().inventory();
    assert!(inventory.downloads.is_empty());
    assert!(has_key(&inventory.hidden_admissions, "dl-admission-unknown"));
    assert!(inventory.queue_admissions.is_empty());

    let retry_store = store.fresh();
    let retry = retry_store.admit_download(&attempt_id, &request).unwrap();
    let DownloadAdmissionTransition::Durable { admission } = retry else {
        panic!("matching retry must confirm the same durable admission");
    };
    assert_eq!(admission.position.ordinal, 0);
    assert!(admission.position.predecessor.is_none());
    let inventory = retry_store.inventory();
    assert_eq!(inventory.downloads.len(), 1);
    assert_eq!(inventory.downloads[0].download_id, "dl-admission-unknown");
    assert!(inventory.hidden_admissions.is_empty());
    assert_eq!(entry(&inventory.queue_admissions, "dl-admission-unknown").attempt_id, attempt_id);
    let restarted = store.fresh();
    assert!(restarted.load_all_strict().is_empty());
    restarted.script_next([Scripted::PublishedDurabilityUnknown]);
    assert!(restarted.reconcile_lifecycle_inventory_strict().is_err());
    assert!(restarted.load_all_strict().is_empty());
    restarted.reconcile_lifecycle_inventory_strict().unwrap();
    assert_eq!(restarted.load_all_strict().len(), 1);
}

#[test]
fn invalid_admission_attempt_is_refused_before_any_publication() {
    let store = Store::new();
    match store.admit_download("not-a-uuid", &admission_request("dl")) {
        Err(PumasError::Validation { field, message }) => {
            assert_eq!(field, "downloads.admission_attempts");
            assert!(message.starts_with("Invalid download admission attempt: "));
        }
        _ => panic!("invalid attempt accepted"),
    }
    assert_eq!(store.calls(), 0);
}

#[test]
fn revocation_attempt_ids_are_fresh_uuids() {
    let store = Store::new();
    let RecoveryRevocation::Durable { attempt_id: first, .. } = store.revoke_for_recovery("a").unwrap() else {
        panic!("revocation must be durable");
    };
    let RecoveryRevocation::Durable { attempt_id: second, .. } = store.revoke_for_recovery("b").unwrap() else {
        panic!("revocation must be durable");
    };
    assert!(Uuid::parse_str(&first).is_ok());
    assert!(Uuid::parse_str(&second).is_ok());
    assert_ne!(first, second);
}

#[test]
fn aborting_a_relocation_restores_the_document() {
    let store = Store::new();
    let source = persisted("relocation");
    store.save(&source).unwrap();
    let before = store.read();
    let request = bare_relocation_request("/tmp/lib/new");
    let attempt = new_attempt();
    assert!(is_durable(&store.begin_legacy_relocation(&attempt, &source, &request).unwrap()));
    assert_eq!(store.read().pending_relocations.len(), 1);
    assert!(is_durable(&store.abort_legacy_relocation(&source.download_id, &attempt).unwrap()));
    let after = store.read();
    assert!(after.pending_relocations.is_empty());
    assert_eq!(after.downloads.len(), before.downloads.len());
    assert_eq!(after.downloads[0].download_id, source.download_id);
    assert_eq!(after.downloads[0].dest_dir, source.dest_dir);
    assert_eq!(store.load_all().len(), 1);
}

fn unsupported_document() -> ParsedStoreDocument {
    ParsedStoreDocument::Current {
        schema_version: 99,
        downloads: Vec::new(),
        recovery_revocations: Vec::new(),
        lifecycle_quarantines: Vec::new(),
        admission_attempts: Vec::new(),
        queue_admissions: Vec::new(),
        released_queue_admissions: Vec::new(),
        pending_relocations: Vec::new(),
    }
}

#[test]
fn operations_on_an_invalid_document_report_its_validation_error() {
    let owner = DownloadPersistence::new("/data");
    let refused = |e: PumasError| {
        matches!(e, PumasError::Validation { field, message }
            if field == "downloads.schema_version"
                && message == "Unsupported download store schema version 99")
    };
    assert!(refused(
        owner.admit_download_document(unsupported_document(), &new_attempt(), &admission_request("x")).err().unwrap()
    ));
    assert!(refused(owner.lifecycle_inventory_document(unsupported_document()).err().unwrap()));
    assert!(refused(
        owner
            .next_admission_position_document(unsupported_document(), &destination("models/x"))
            .err().unwrap()
    ));
    assert!(refused(
        owner
            .finish_legacy_relocation_document(unsupported_document(), &"x".to_string(), &new_attempt())
            .err().unwrap()
    ));
    assert!(refused(
        owner
            .abort_legacy_relocation_document(unsupported_document(), &"x".to_string(), &new_attempt())
            .err().unwrap()
    ));
}

#[test]
fn a_missing_document_has_an_empty_inventory_and_the_first_position() {
    let owner = DownloadPersistence::new("/data");
    let inventory = owner.lifecycle_inventory_document(ParsedStoreDocument::Missing).unwrap();
    assert!(inventory.downloads.is_empty());
    assert!(inventory.queue_admissions.is_empty());
    let position = owner
        .next_admission_position_document(ParsedStoreDocument::Missing, &destination("models/x"))
        .unwrap();
    assert_eq!(position.ordinal, 0);
    assert!(position.predecessor.is_none());
}

#[test]
fn an_invalid_attempt_is_refused_before_the_document_is_read() {
    let owner = DownloadPersistence::new("/data");
    let refused = owner
        .admit_download_document(unsupported_document(), "not-a-uuid", &admission_request("x"))
        .err()
        .unwrap();
    assert!(matches!(refused, PumasError::Validation { field, message }
        if field == "downloads.admission_attempts"
            && message.starts_with("Invalid download admission attempt: ")));
}
