//! The invariant of the download store document and its executable check.

use crate::keyed::{keys_sorted, keys_unique};
use crate::store_model::{
    AdmissionAttemptView, AdmissionRequestView, DestinationView, DownloadStatus, DownloadStoreData,
    LifecycleQuarantineDomain, PersistedDownloadView, PersistedLifecycleCleanupDisposition,
    PersistedRevocationDisposition, PositionView, QueueAdmissionView, QuarantineView,
    RelocationView, StoreView, DOWNLOAD_STORE_SCHEMA_VERSION,
};
use crate::store_validate::{spec_admission_request_valid, spec_relocation_request_valid};
use crate::text::is_blank;
use crate::uuid_text::uuid_parses;
use vstd::prelude::*;

verus! {

/// Every record list of the document has unique keys, in ascending order.
pub open spec fn store_wf(d: DownloadStoreData) -> bool {
    &&& keys_unique(d.recovery_revocations@)
    &&& keys_unique(d.lifecycle_quarantines@)
    &&& keys_unique(d.admission_attempts@)
    &&& keys_unique(d.queue_admissions@)
    &&& keys_unique(d.released_queue_admissions@)
    &&& keys_unique(d.pending_relocations@)
    &&& keys_sorted(d.recovery_revocations@)
    &&& keys_sorted(d.lifecycle_quarantines@)
    &&& keys_sorted(d.admission_attempts@)
    &&& keys_sorted(d.queue_admissions@)
    &&& keys_sorted(d.released_queue_admissions@)
    &&& keys_sorted(d.pending_relocations@)
}

pub open spec fn row_has_id(ds: Seq<PersistedDownloadView>, id: Seq<char>) -> bool {
    exists|i: int| 0 <= i < ds.len() && #[trigger] ds[i].download_id == id
}

pub open spec fn is_first_with_id(ds: Seq<PersistedDownloadView>, id: Seq<char>, i: int) -> bool {
    &&& 0 <= i < ds.len()
    &&& ds[i].download_id == id
    &&& forall|j: int| 0 <= j < i ==> #[trigger] ds[j].download_id != id
}

/// Index of the first row with the given download id.
pub open spec fn first_with_id(ds: Seq<PersistedDownloadView>, id: Seq<char>) -> int {
    choose|i: int| is_first_with_id(ds, id, i)
}

pub open spec fn queue_uses_attempt(m: Map<Seq<char>, QueueAdmissionView>, a: Seq<char>) -> bool {
    exists|k: Seq<char>| #[trigger] m.dom().contains(k) && m[k].attempt_id == a
}

pub open spec fn attempt_owns_download(m: Map<Seq<char>, AdmissionAttemptView>, id: Seq<char>) -> bool {
    exists|k: Seq<char>| #[trigger] m.dom().contains(k) && m[k].request.snapshot.download_id == id
}

pub open spec fn is_inactive(s: DownloadStatus) -> bool {
    s == DownloadStatus::Paused || s == DownloadStatus::Error
}

/// One pending relocation exclusively owns an inactive legacy row and both
/// of its destinations.
pub open spec fn relocation_entry_ok(d: StoreView, id: Seq<char>, rel: RelocationView) -> bool {
    &&& spec_relocation_request_valid(rel.request)
    &&& uuid_parses(rel.attempt_id)
    &&& !d.admission_attempts.dom().contains(rel.attempt_id)
    &&& !queue_uses_attempt(d.queue_admissions, rel.attempt_id)
    &&& !queue_uses_attempt(d.released_queue_admissions, rel.attempt_id)
    &&& exists|i: int|
        0 <= i < d.downloads.len() && #[trigger] d.downloads[i].download_id == id && is_inactive(
            d.downloads[i].status,
        )
    &&& !d.queue_admissions.dom().contains(id)
    &&& !d.released_queue_admissions.dom().contains(id)
    &&& !d.recovery_revocations.dom().contains(id)
    &&& !d.lifecycle_quarantines.dom().contains(id)
    &&& !attempt_owns_download(d.admission_attempts, id)
    &&& {
        let source = d.downloads[first_with_id(d.downloads, id)];
        &&& forall|j: int|
            0 <= j < d.downloads.len() && #[trigger] d.downloads[j].download_id != id ==> d.downloads[j].dest_dir
                != source.dest_dir && d.downloads[j].dest_dir != rel.request.target_dir
        &&& forall|k: Seq<char>| #[trigger]
            d.lifecycle_quarantines.dom().contains(k) ==> d.lifecycle_quarantines[k].snapshot.dest_dir
                != source.dest_dir && d.lifecycle_quarantines[k].snapshot.dest_dir
                != rel.request.target_dir
    }
    &&& forall|k: Seq<char>| #[trigger]
        d.queue_admissions.dom().contains(k) ==> d.queue_admissions[k].destination
            != rel.request.source && d.queue_admissions[k].destination != rel.request.target
    &&& forall|k: Seq<char>| #[trigger]
        d.admission_attempts.dom().contains(k) ==> d.admission_attempts[k].request.destination
            != rel.request.source && d.admission_attempts[k].request.destination
            != rel.request.target
}

/// Distinct relocations use distinct attempts and disjoint destinations.
pub open spec fn relocations_disjoint(d: StoreView) -> bool {
    forall|a: Seq<char>, b: Seq<char>|
        #[trigger] d.pending_relocations.dom().contains(a) && #[trigger]
        d.pending_relocations.dom().contains(b) && a != b ==> {
            let ra = d.pending_relocations[a];
            let rb = d.pending_relocations[b];
            &&& ra.attempt_id != rb.attempt_id
            &&& ra.request.source != rb.request.source
            &&& ra.request.source != rb.request.target
            &&& ra.request.target != rb.request.source
            &&& ra.request.target != rb.request.target
        }
}

pub open spec fn relocations_ok(d: StoreView) -> bool {
    &&& forall|id: Seq<char>| #[trigger]
        d.pending_relocations.dom().contains(id) ==> relocation_entry_ok(
            d,
            id,
            d.pending_relocations[id],
        )
    &&& relocations_disjoint(d)
}

pub open spec fn distinct_attempts(m: Map<Seq<char>, QueueAdmissionView>) -> bool {
    forall|a: Seq<char>, b: Seq<char>|
        #[trigger] m.dom().contains(a) && #[trigger] m.dom().contains(b) && a != b
            ==> m[a].attempt_id != m[b].attempt_id
}

/// Each admission attempt id is owned by exactly one record.
pub open spec fn attempt_ids_unique(d: StoreView) -> bool {
    &&& forall|k: Seq<char>| #[trigger]
        d.admission_attempts.dom().contains(k) ==> !queue_uses_attempt(d.queue_admissions, k)
            && !queue_uses_attempt(d.released_queue_admissions, k)
    &&& distinct_attempts(d.queue_admissions)
    &&& distinct_attempts(d.released_queue_admissions)
    &&& forall|a: Seq<char>| #[trigger]
        d.queue_admissions.dom().contains(a) ==> !queue_uses_attempt(
            d.released_queue_admissions,
            d.queue_admissions[a].attempt_id,
        )
}

pub open spec fn downloads_ok(d: StoreView) -> bool {
    &&& forall|i: int, j: int|
        0 <= i < d.downloads.len() && 0 <= j < d.downloads.len() && i != j
            ==> #[trigger] d.downloads[i].download_id != #[trigger] d.downloads[j].download_id
    &&& forall|i: int|
        0 <= i < d.downloads.len() ==> !d.recovery_revocations.dom().contains(
            #[trigger] d.downloads[i].download_id,
        )
}

pub open spec fn revocations_ok(d: StoreView) -> bool {
    forall|k: Seq<char>| #[trigger]
        d.recovery_revocations.dom().contains(k) ==> !is_blank(k) && uuid_parses(
            d.recovery_revocations[k].attempt_id,
        )
}

pub open spec fn attempts_ok(d: StoreView) -> bool {
    forall|k: Seq<char>| #[trigger]
        d.admission_attempts.dom().contains(k) ==> {
            let a = d.admission_attempts[k];
            let id = a.request.snapshot.download_id;
            &&& uuid_parses(k)
            &&& spec_admission_request_valid(a.request)
            &&& !row_has_id(d.downloads, id)
            &&& !d.lifecycle_quarantines.dom().contains(id)
            &&& !d.queue_admissions.dom().contains(id)
        }
}

/// The full snapshot owning a queued admission: its ordinary row, or else its
/// quarantine snapshot.
pub open spec fn owner_snapshot(d: StoreView, k: Seq<char>) -> PersistedDownloadView {
    if row_has_id(d.downloads, k) {
        d.downloads[first_with_id(d.downloads, k)]
    } else {
        d.lifecycle_quarantines[k].snapshot
    }
}

/// The admission request that a queued admission was promoted from.
pub open spec fn queue_request(d: StoreView, k: Seq<char>, q: QueueAdmissionView) -> AdmissionRequestView {
    AdmissionRequestView {
        snapshot: owner_snapshot(d, k),
        domain: q.domain,
        destination: q.destination,
        requested_payload_files: q.requested_payload_files,
        execution_files: q.execution_files,
    }
}

pub open spec fn queue_entry_ok(d: StoreView, k: Seq<char>, q: QueueAdmissionView) -> bool {
    &&& uuid_parses(q.attempt_id)
    &&& row_has_id(d.downloads, k) || d.lifecycle_quarantines.dom().contains(k)
    &&& spec_admission_request_valid(queue_request(d, k, q))
}

pub open spec fn queue_ok(d: StoreView) -> bool {
    forall|k: Seq<char>| #[trigger]
        d.queue_admissions.dom().contains(k) ==> queue_entry_ok(d, k, d.queue_admissions[k])
}

pub open spec fn released_ok(d: StoreView) -> bool {
    forall|k: Seq<char>| #[trigger]
        d.released_queue_admissions.dom().contains(k) ==> {
            &&& uuid_parses(d.released_queue_admissions[k].attempt_id)
            &&& !d.queue_admissions.dom().contains(k)
            &&& !row_has_id(d.downloads, k)
            &&& !attempt_owns_download(d.admission_attempts, k)
        }
}

pub open spec fn attempt_slot(a: AdmissionAttemptView) -> (DestinationView, u64) {
    (a.request.destination, a.position.ordinal)
}

pub open spec fn queue_slot(q: QueueAdmissionView) -> (DestinationView, u64) {
    (q.destination, q.position.ordinal)
}

/// No two intended admissions share a destination ordinal.
pub open spec fn attempt_slots_distinct(d: StoreView) -> bool {
    forall|a: Seq<char>, b: Seq<char>|
        #[trigger] d.admission_attempts.dom().contains(a) && #[trigger] d.admission_attempts.dom().contains(b)
            && a != b ==> attempt_slot(d.admission_attempts[a]) != attempt_slot(d.admission_attempts[b])
}

/// No queued admission shares a destination ordinal with another queued or
/// an intended admission.
pub open spec fn queue_slots_distinct(d: StoreView) -> bool {
    &&& forall|a: Seq<char>, b: Seq<char>|
        #[trigger] d.queue_admissions.dom().contains(a) && #[trigger] d.queue_admissions.dom().contains(b) && a
            != b ==> queue_slot(d.queue_admissions[a]) != queue_slot(d.queue_admissions[b])
    &&& forall|a: Seq<char>, b: Seq<char>|
        #[trigger] d.admission_attempts.dom().contains(a) && #[trigger] d.queue_admissions.dom().contains(b)
            ==> attempt_slot(d.admission_attempts[a]) != queue_slot(d.queue_admissions[b])
}

/// No released admission shares a destination ordinal with any other
/// admission.
pub open spec fn released_slots_distinct(d: StoreView) -> bool {
    &&& forall|a: Seq<char>, b: Seq<char>|
        #[trigger] d.released_queue_admissions.dom().contains(a) && #[trigger]
        d.released_queue_admissions.dom().contains(b) && a != b ==> queue_slot(d.released_queue_admissions[a])
            != queue_slot(d.released_queue_admissions[b])
    &&& forall|a: Seq<char>, b: Seq<char>|
        #[trigger] d.admission_attempts.dom().contains(a) && #[trigger]
        d.released_queue_admissions.dom().contains(b) ==> attempt_slot(d.admission_attempts[a]) != queue_slot(
            d.released_queue_admissions[b],
        )
    &&& forall|a: Seq<char>, b: Seq<char>|
        #[trigger] d.queue_admissions.dom().contains(a) && #[trigger]
        d.released_queue_admissions.dom().contains(b) ==> queue_slot(d.queue_admissions[a]) != queue_slot(
            d.released_queue_admissions[b],
        )
}

/// The destination and ordinal of the admission identified by a download id
/// and attempt id, looking at released, queued, then intended admissions.
pub open spec fn owner_of(d: StoreView, did: Seq<char>, aid: Seq<char>) -> Option<(DestinationView, u64)> {
    if d.released_queue_admissions.dom().contains(did)
        && d.released_queue_admissions[did].attempt_id == aid {
        Some(queue_slot(d.released_queue_admissions[did]))
    } else if d.queue_admissions.dom().contains(did) && d.queue_admissions[did].attempt_id == aid {
        Some(queue_slot(d.queue_admissions[did]))
    } else if d.admission_attempts.dom().contains(aid)
        && d.admission_attempts[aid].request.snapshot.download_id == did {
        Some(attempt_slot(d.admission_attempts[aid]))
    } else {
        None
    }
}

/// A predecessor names an earlier admission at the same destination.
pub open spec fn predecessor_ok(d: StoreView, dest: DestinationView, pos: PositionView) -> bool {
    match pos.predecessor {
        None => true,
        Some(p) => match owner_of(d, p.download_id, p.admission_attempt_id) {
            Some((pdest, pord)) => pdest == dest && pord < pos.ordinal,
            None => false,
        },
    }
}

pub open spec fn predecessors_ok(d: StoreView) -> bool {
    &&& forall|k: Seq<char>| #[trigger]
        d.admission_attempts.dom().contains(k) ==> predecessor_ok(
            d,
            d.admission_attempts[k].request.destination,
            d.admission_attempts[k].position,
        )
    &&& forall|k: Seq<char>| #[trigger]
        d.queue_admissions.dom().contains(k) ==> predecessor_ok(
            d,
            d.queue_admissions[k].destination,
            d.queue_admissions[k].position,
        )
    &&& forall|k: Seq<char>| #[trigger]
        d.released_queue_admissions.dom().contains(k) ==> predecessor_ok(
            d,
            d.released_queue_admissions[k].destination,
            d.released_queue_admissions[k].position,
        )
}

pub open spec fn quarantine_status(q: QuarantineView) -> DownloadStatus {
    if q.sticky_failure {
        DownloadStatus::Error
    } else {
        DownloadStatus::Cancelling
    }
}

pub open spec fn quarantine_entry_ok(d: StoreView, k: Seq<char>, q: QuarantineView) -> bool {
    &&& q.snapshot.download_id == k
    &&& q.snapshot.status == quarantine_status(q)
    &&& !q.sticky_failure ==> (q.disposition == PersistedLifecycleCleanupDisposition::PendingIntent
        || q.disposition == PersistedLifecycleCleanupDisposition::Pending)
    &&& !row_has_id(d.downloads, k)
    &&& (d.recovery_revocations.dom().contains(k) && d.recovery_revocations[k].disposition
        == PersistedRevocationDisposition::Durable) == (q.domain
        == LifecycleQuarantineDomain::Recovery)
}

pub open spec fn quarantines_ok(d: StoreView) -> bool {
    forall|k: Seq<char>| #[trigger]
        d.lifecycle_quarantines.dom().contains(k) ==> quarantine_entry_ok(
            d,
            k,
            d.lifecycle_quarantines[k],
        )
}

/// The invariant every persisted store document satisfies.
pub open spec fn store_valid(d: StoreView) -> bool {
    &&& relocations_ok(d)
    &&& attempt_ids_unique(d)
    &&& d.schema_version == DOWNLOAD_STORE_SCHEMA_VERSION
    &&& downloads_ok(d)
    &&& revocations_ok(d)
    &&& attempts_ok(d)
    &&& attempt_slots_distinct(d)
    &&& queue_ok(d)
    &&& queue_slots_distinct(d)
    &&& released_ok(d)
    &&& released_slots_distinct(d)
    &&& predecessors_ok(d)
    &&& quarantines_ok(d)
}

} // verus!
