//! The records of the download store document and their mathematical views.

use crate::keyed::{keyed_map, Keyed};
use crate::strings::{
    clone_opt_string, clone_opt_strings, clone_string, clone_strings, opt_string_eq, opt_strings_eq,
    string_eq, strings_eq,
};
use vstd::prelude::*;

verus! {

/// Schema version of the current store document.
pub const DOWNLOAD_STORE_SCHEMA_VERSION: u32 = 3;

/// Lifecycle state of one download.
#[derive(Clone, Copy, Debug, PartialEq, Eq, Structural)]
pub enum DownloadStatus {
    Queued,
    Downloading,
    Pausing,
    Paused,
    Cancelling,
    Cancelled,
    Completed,
    Error,
}

/// The user request that started a download.
pub struct DownloadRequest {
    pub repo_id: String,
    pub family: String,
    pub official_name: String,
    pub model_type: Option<String>,
    pub quant: Option<String>,
    pub filename: Option<String>,
    pub filenames: Option<Vec<String>>,
    pub pipeline_tag: Option<String>,
    pub bundle_format: Option<String>,
    pub pipeline_class: Option<String>,
    pub release_date: Option<String>,
    pub download_url: Option<String>,
    /// Model card as canonical JSON text.
    pub model_card_json: Option<String>,
    pub license_status: Option<String>,
}

pub struct DownloadRequestView {
    pub repo_id: Seq<char>,
    pub family: Seq<char>,
    pub official_name: Seq<char>,
    pub model_type: Option<Seq<char>>,
    pub quant: Option<Seq<char>>,
    pub filename: Option<Seq<char>>,
    pub filenames: Option<Seq<Seq<char>>>,
    pub pipeline_tag: Option<Seq<char>>,
    pub bundle_format: Option<Seq<char>>,
    pub pipeline_class: Option<Seq<char>>,
    pub release_date: Option<Seq<char>>,
    pub download_url: Option<Seq<char>>,
    pub model_card_json: Option<Seq<char>>,
    pub license_status: Option<Seq<char>>,
}

impl View for DownloadRequest {
    type V = DownloadRequestView;

    open spec fn view(&self) -> DownloadRequestView {
        DownloadRequestView {
            repo_id: self.repo_id@,
            family: self.family@,
            official_name: self.official_name@,
            model_type: self.model_type.deep_view(),
            quant: self.quant.deep_view(),
            filename: self.filename.deep_view(),
            filenames: self.filenames.deep_view(),
            pipeline_tag: self.pipeline_tag.deep_view(),
            bundle_format: self.bundle_format.deep_view(),
            pipeline_class: self.pipeline_class.deep_view(),
            release_date: self.release_date.deep_view(),
            download_url: self.download_url.deep_view(),
            model_card_json: self.model_card_json.deep_view(),
            license_status: self.license_status.deep_view(),
        }
    }
}

impl DownloadRequest {
    pub fn duplicate(&self) -> (r: Self)
        ensures
            r@ == self@,
    {
        DownloadRequest {
            repo_id: clone_string(&self.repo_id),
            family: clone_string(&self.family),
            official_name: clone_string(&self.official_name),
            model_type: clone_opt_string(&self.model_type),
            quant: clone_opt_string(&self.quant),
            filename: clone_opt_string(&self.filename),
            filenames: clone_opt_strings(&self.filenames),
            pipeline_tag: clone_opt_string(&self.pipeline_tag),
            bundle_format: clone_opt_string(&self.bundle_format),
            pipeline_class: clone_opt_string(&self.pipeline_class),
            release_date: clone_opt_string(&self.release_date),
            download_url: clone_opt_string(&self.download_url),
            model_card_json: clone_opt_string(&self.model_card_json),
            license_status: clone_opt_string(&self.license_status),
        }
    }

    pub fn same_as(&self, other: &Self) -> (r: bool)
        ensures
            r == (self@ == other@),
    {
        string_eq(&self.repo_id, &other.repo_id) && string_eq(&self.family, &other.family)
            && string_eq(&self.official_name, &other.official_name) && opt_string_eq(
            &self.model_type,
            &other.model_type,
        ) && opt_string_eq(&self.quant, &other.quant) && opt_string_eq(
            &self.filename,
            &other.filename,
        ) && opt_strings_eq(&self.filenames, &other.filenames) && opt_string_eq(
            &self.pipeline_tag,
            &other.pipeline_tag,
        ) && opt_string_eq(&self.bundle_format, &other.bundle_format) && opt_string_eq(
            &self.pipeline_class,
            &other.pipeline_class,
        ) && opt_string_eq(&self.release_date, &other.release_date) && opt_string_eq(
            &self.download_url,
            &other.download_url,
        ) && opt_string_eq(&self.model_card_json, &other.model_card_json) && opt_string_eq(
            &self.license_status,
            &other.license_status,
        )
    }
}

/// A single persisted download entry.
pub struct PersistedDownload {
    pub download_id: String,
    pub repo_id: String,
    /// Primary filename (first file or legacy single-file download).
    pub filename: String,
    /// All filenames of a multi-file download; empty for a legacy download.
    pub filenames: Vec<String>,
    pub dest_dir: String,
    pub total_bytes: Option<u64>,
    pub status: DownloadStatus,
    pub download_request: DownloadRequest,
    pub created_at: String,
    pub known_sha256: Option<String>,
    /// Normalized Hugging Face evidence as canonical JSON text.
    pub huggingface_evidence: Option<String>,
}

pub struct PersistedDownloadView {
    pub download_id: Seq<char>,
    pub repo_id: Seq<char>,
    pub filename: Seq<char>,
    pub filenames: Seq<Seq<char>>,
    pub dest_dir: Seq<char>,
    pub total_bytes: Option<u64>,
    pub status: DownloadStatus,
    pub download_request: DownloadRequestView,
    pub created_at: Seq<char>,
    pub known_sha256: Option<Seq<char>>,
    pub huggingface_evidence: Option<Seq<char>>,
}

impl View for PersistedDownload {
    type V = PersistedDownloadView;

    open spec fn view(&self) -> PersistedDownloadView {
        PersistedDownloadView {
            download_id: self.download_id@,
            repo_id: self.repo_id@,
            filename: self.filename@,
            filenames: self.filenames.deep_view(),
            dest_dir: self.dest_dir@,
            total_bytes: self.total_bytes,
            status: self.status,
            download_request: self.download_request@,
            created_at: self.created_at@,
            known_sha256: self.known_sha256.deep_view(),
            huggingface_evidence: self.huggingface_evidence.deep_view(),
        }
    }
}

/// The same record with another status.
pub open spec fn with_status(d: PersistedDownloadView, status: DownloadStatus) -> PersistedDownloadView {
    PersistedDownloadView { status, ..d }
}

impl PersistedDownload {
    pub fn duplicate(&self) -> (r: Self)
        ensures
            r@ == self@,
    {
        PersistedDownload {
            download_id: clone_string(&self.download_id),
            repo_id: clone_string(&self.repo_id),
            filename: clone_string(&self.filename),
            filenames: clone_strings(&self.filenames),
            dest_dir: clone_string(&self.dest_dir),
            total_bytes: self.total_bytes,
            status: self.status,
            download_request: self.download_request.duplicate(),
            created_at: clone_string(&self.created_at),
            known_sha256: clone_opt_string(&self.known_sha256),
            huggingface_evidence: clone_opt_string(&self.huggingface_evidence),
        }
    }
}

/// True when both records are identical in every persisted field.
pub fn persisted_download_matches(left: &PersistedDownload, right: &PersistedDownload) -> (r: bool)
    ensures
        r == (left@ == right@),
{
    string_eq(&left.download_id, &right.download_id) && string_eq(&left.repo_id, &right.repo_id)
        && string_eq(&left.filename, &right.filename) && strings_eq(
        &left.filenames,
        &right.filenames,
    ) && string_eq(&left.dest_dir, &right.dest_dir) && left.total_bytes == right.total_bytes
        && left.status == right.status && left.download_request.same_as(&right.download_request)
        && string_eq(&left.created_at, &right.created_at) && opt_string_eq(
        &left.known_sha256,
        &right.known_sha256,
    ) && opt_string_eq(&left.huggingface_evidence, &right.huggingface_evidence)
}

/// True when both records agree on every field but the status.
pub fn persisted_download_identity_matches(
    left: &PersistedDownload,
    right: &PersistedDownload,
) -> (r: bool)
    ensures
        r == (left@ == with_status(right@, left@.status)),
{
    let mut candidate = right.duplicate();
    candidate.status = left.status;
    proof {
        assert(candidate@ =~= with_status(right@, left@.status));
    }
    persisted_download_matches(left, &candidate)
}

/// Non-authorizing equality identity of one destination below a library root.
pub struct PersistedDestinationIdentity {
    pub library_root: String,
    pub relative_target: String,
}

pub struct DestinationView {
    pub library_root: Seq<char>,
    pub relative_target: Seq<char>,
}

impl View for PersistedDestinationIdentity {
    type V = DestinationView;

    open spec fn view(&self) -> DestinationView {
        DestinationView { library_root: self.library_root@, relative_target: self.relative_target@ }
    }
}

impl PersistedDestinationIdentity {
    pub fn duplicate(&self) -> (r: Self)
        ensures
            r@ == self@,
    {
        PersistedDestinationIdentity {
            library_root: clone_string(&self.library_root),
            relative_target: clone_string(&self.relative_target),
        }
    }

    pub fn same_as(&self, other: &Self) -> (r: bool)
        ensures
            r == (self@ == other@),
    {
        string_eq(&self.library_root, &other.library_root) && string_eq(
            &self.relative_target,
            &other.relative_target,
        )
    }
}

#[derive(Clone, Copy, Debug, PartialEq, Eq, Structural)]
pub enum DownloadAdmissionDomain {
    Ambient,
    Recovery,
}

#[derive(Clone, Copy, Debug, PartialEq, Eq, Structural)]
pub enum LifecycleQuarantineDomain {
    Ambient,
    Recovery,
}

#[derive(Clone, Copy, Debug, PartialEq, Eq, Structural)]
pub enum PersistedLifecycleCleanupDisposition {
    PendingIntent,
    Pending,
    VerifiedIntent,
    Verified,
}

#[derive(Clone, Copy, Debug, PartialEq, Eq, Structural)]
pub enum PersistedRevocationDisposition {
    DurabilityUnknown,
    Durable,
}

/// The admission that precedes another one at the same destination.
pub struct QueuePredecessor {
    pub download_id: String,
    pub admission_attempt_id: String,
}

pub struct QueuePredecessorView {
    pub download_id: Seq<char>,
    pub admission_attempt_id: Seq<char>,
}

impl View for QueuePredecessor {
    type V = QueuePredecessorView;

    open spec fn view(&self) -> QueuePredecessorView {
        QueuePredecessorView {
            download_id: self.download_id@,
            admission_attempt_id: self.admission_attempt_id@,
        }
    }
}

/// FIFO position of one admission at its destination.
pub struct DownloadAdmissionPosition {
    pub ordinal: u64,
    pub predecessor: Option<QueuePredecessor>,
}

pub struct PositionView {
    pub ordinal: u64,
    pub predecessor: Option<QueuePredecessorView>,
}

impl View for DownloadAdmissionPosition {
    type V = PositionView;

    open spec fn view(&self) -> PositionView {
        PositionView {
            ordinal: self.ordinal,
            predecessor: match self.predecessor {
                Some(p) => Some(p@),
                None => None,
            },
        }
    }
}

impl DownloadAdmissionPosition {
    pub fn duplicate(&self) -> (r: Self)
        ensures
            r@ == self@,
    {
        DownloadAdmissionPosition {
            ordinal: self.ordinal,
            predecessor: match &self.predecessor {
                Some(p) => Some(
                    QueuePredecessor {
                        download_id: clone_string(&p.download_id),
                        admission_attempt_id: clone_string(&p.admission_attempt_id),
                    },
                ),
                None => None,
            },
        }
    }
}

/// A request to admit one download into its destination's FIFO queue.
pub struct DownloadAdmissionRequest {
    pub snapshot: PersistedDownload,
    pub domain: DownloadAdmissionDomain,
    pub destination: PersistedDestinationIdentity,
    pub requested_payload_files: Vec<String>,
    pub execution_files: Vec<String>,
}

pub struct AdmissionRequestView {
    pub snapshot: PersistedDownloadView,
    pub domain: DownloadAdmissionDomain,
    pub destination: DestinationView,
    pub requested_payload_files: Seq<Seq<char>>,
    pub execution_files: Seq<Seq<char>>,
}

impl View for DownloadAdmissionRequest {
    type V = AdmissionRequestView;

    open spec fn view(&self) -> AdmissionRequestView {
        AdmissionRequestView {
            snapshot: self.snapshot@,
            domain: self.domain,
            destination: self.destination@,
            requested_payload_files: self.requested_payload_files.deep_view(),
            execution_files: self.execution_files.deep_view(),
        }
    }
}

impl DownloadAdmissionRequest {
    pub fn duplicate(&self) -> (r: Self)
        ensures
            r@ == self@,
    {
        DownloadAdmissionRequest {
            snapshot: self.snapshot.duplicate(),
            domain: self.domain,
            destination: self.destination.duplicate(),
            requested_payload_files: clone_strings(&self.requested_payload_files),
            execution_files: clone_strings(&self.execution_files),
        }
    }
}

/// A durable (promoted) queue admission.
pub struct PersistedQueueAdmission {
    pub attempt_id: String,
    pub domain: DownloadAdmissionDomain,
    pub destination: PersistedDestinationIdentity,
    pub requested_payload_files: Vec<String>,
    pub execution_files: Vec<String>,
    pub position: DownloadAdmissionPosition,
}

pub struct QueueAdmissionView {
    pub attempt_id: Seq<char>,
    pub domain: DownloadAdmissionDomain,
    pub destination: DestinationView,
    pub requested_payload_files: Seq<Seq<char>>,
    pub execution_files: Seq<Seq<char>>,
    pub position: PositionView,
}

impl View for PersistedQueueAdmission {
    type V = QueueAdmissionView;

    open spec fn view(&self) -> QueueAdmissionView {
        QueueAdmissionView {
            attempt_id: self.attempt_id@,
            domain: self.domain,
            destination: self.destination@,
            requested_payload_files: self.requested_payload_files.deep_view(),
            execution_files: self.execution_files.deep_view(),
            position: self.position@,
        }
    }
}

impl PersistedQueueAdmission {
    pub fn duplicate(&self) -> (r: Self)
        ensures
            r@ == self@,
    {
        PersistedQueueAdmission {
            attempt_id: clone_string(&self.attempt_id),
            domain: self.domain,
            destination: self.destination.duplicate(),
            requested_payload_files: clone_strings(&self.requested_payload_files),
            execution_files: clone_strings(&self.execution_files),
            position: self.position.duplicate(),
        }
    }
}

/// An admission intent that has not been promoted yet.
pub struct PersistedAdmissionAttempt {
    pub request: DownloadAdmissionRequest,
    pub position: DownloadAdmissionPosition,
}

pub struct AdmissionAttemptView {
    pub request: AdmissionRequestView,
    pub position: PositionView,
}

impl View for PersistedAdmissionAttempt {
    type V = AdmissionAttemptView;

    open spec fn view(&self) -> AdmissionAttemptView {
        AdmissionAttemptView { request: self.request@, position: self.position@ }
    }
}

/// A download whose cleanup is owned by a quarantine.
pub struct PersistedLifecycleQuarantine {
    pub snapshot: PersistedDownload,
    pub domain: LifecycleQuarantineDomain,
    pub disposition: PersistedLifecycleCleanupDisposition,
    pub sticky_failure: bool,
}

pub struct QuarantineView {
    pub snapshot: PersistedDownloadView,
    pub domain: LifecycleQuarantineDomain,
    pub disposition: PersistedLifecycleCleanupDisposition,
    pub sticky_failure: bool,
}

impl View for PersistedLifecycleQuarantine {
    type V = QuarantineView;

    open spec fn view(&self) -> QuarantineView {
        QuarantineView {
            snapshot: self.snapshot@,
            domain: self.domain,
            disposition: self.disposition,
            sticky_failure: self.sticky_failure,
        }
    }
}

/// A recovery revocation tombstone.
pub struct PersistedRecoveryRevocation {
    pub attempt_id: String,
    pub disposition: PersistedRevocationDisposition,
}

pub struct RevocationView {
    pub attempt_id: Seq<char>,
    pub disposition: PersistedRevocationDisposition,
}

impl View for PersistedRecoveryRevocation {
    type V = RevocationView;

    open spec fn view(&self) -> RevocationView {
        RevocationView { attempt_id: self.attempt_id@, disposition: self.disposition }
    }
}

/// A request to move a legacy download between two destinations.
pub struct LegacyRelocationRequest {
    pub source: PersistedDestinationIdentity,
    pub target: PersistedDestinationIdentity,
    pub target_dir: String,
    pub model_type: Option<String>,
    pub family: Option<String>,
}

pub struct RelocationRequestView {
    pub source: DestinationView,
    pub target: DestinationView,
    pub target_dir: Seq<char>,
    pub model_type: Option<Seq<char>>,
    pub family: Option<Seq<char>>,
}

impl View for LegacyRelocationRequest {
    type V = RelocationRequestView;

    open spec fn view(&self) -> RelocationRequestView {
        RelocationRequestView {
            source: self.source@,
            target: self.target@,
            target_dir: self.target_dir@,
            model_type: self.model_type.deep_view(),
            family: self.family.deep_view(),
        }
    }
}

impl LegacyRelocationRequest {
    pub fn duplicate(&self) -> (r: Self)
        ensures
            r@ == self@,
    {
        LegacyRelocationRequest {
            source: self.source.duplicate(),
            target: self.target.duplicate(),
            target_dir: clone_string(&self.target_dir),
            model_type: clone_opt_string(&self.model_type),
            family: clone_opt_string(&self.family),
        }
    }

    pub fn same_as(&self, other: &Self) -> (r: bool)
        ensures
            r == (self@ == other@),
    {
        self.source.same_as(&other.source) && self.target.same_as(&other.target) && string_eq(
            &self.target_dir,
            &other.target_dir,
        ) && opt_string_eq(&self.model_type, &other.model_type) && opt_string_eq(
            &self.family,
            &other.family,
        )
    }
}

/// A pending relocation intent.
pub struct PersistedLegacyRelocation {
    pub attempt_id: String,
    pub request: LegacyRelocationRequest,
}

pub struct RelocationView {
    pub attempt_id: Seq<char>,
    pub request: RelocationRequestView,
}

impl View for PersistedLegacyRelocation {
    type V = RelocationView;

    open spec fn view(&self) -> RelocationView {
        RelocationView { attempt_id: self.attempt_id@, request: self.request@ }
    }
}

/// The versioned download store document.
pub struct DownloadStoreData {
    pub schema_version: u32,
    pub downloads: Vec<PersistedDownload>,
    pub recovery_revocations: Vec<Keyed<PersistedRecoveryRevocation>>,
    pub lifecycle_quarantines: Vec<Keyed<PersistedLifecycleQuarantine>>,
    pub admission_attempts: Vec<Keyed<PersistedAdmissionAttempt>>,
    pub queue_admissions: Vec<Keyed<PersistedQueueAdmission>>,
    pub released_queue_admissions: Vec<Keyed<PersistedQueueAdmission>>,
    pub pending_relocations: Vec<Keyed<PersistedLegacyRelocation>>,
}

pub struct StoreView {
    pub schema_version: u32,
    pub downloads: Seq<PersistedDownloadView>,
    pub recovery_revocations: Map<Seq<char>, RevocationView>,
    pub lifecycle_quarantines: Map<Seq<char>, QuarantineView>,
    pub admission_attempts: Map<Seq<char>, AdmissionAttemptView>,
    pub queue_admissions: Map<Seq<char>, QueueAdmissionView>,
    pub released_queue_admissions: Map<Seq<char>, QueueAdmissionView>,
    pub pending_relocations: Map<Seq<char>, RelocationView>,
}

pub open spec fn downloads_view(v: Seq<PersistedDownload>) -> Seq<PersistedDownloadView> {
    v.map_values(|d: PersistedDownload| d@)
}

impl View for DownloadStoreData {
    type V = StoreView;

    open spec fn view(&self) -> StoreView {
        StoreView {
            schema_version: self.schema_version,
            downloads: downloads_view(self.downloads@),
            recovery_revocations: keyed_map(self.recovery_revocations@),
            lifecycle_quarantines: keyed_map(self.lifecycle_quarantines@),
            admission_attempts: keyed_map(self.admission_attempts@),
            queue_admissions: keyed_map(self.queue_admissions@),
            released_queue_admissions: keyed_map(self.released_queue_admissions@),
            pending_relocations: keyed_map(self.pending_relocations@),
        }
    }
}

} // verus!
