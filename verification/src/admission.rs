//! Admitting a download into the durable FIFO queue of its destination.
//!
//! Admission is a two-publication protocol. The intent (a hidden admission
//! attempt) is published first; only after it is durable is the snapshot
//! promoted into an ordinary row and a queue admission.

use crate::admission_queue::{max_slot, next_admission_position, next_position_ok};
use crate::error::{is_error, is_other, other_error, PumasError};
use crate::keyed::{
    find_key, index_of_key, insert_key, lemma_keyed_map_at, lemma_keyed_map_key, remove_key,
};
use crate::persistence::DownloadPersistence;
use crate::publication::{AtomicPublication, AtomicPublishFailure, ErrorView};
use crate::store_check::{
    store_error,
    attempt_owns_download_exec, find_row, key_present, queue_uses_attempt_exec, validate_store_data,
};
use crate::store_invariant::{
    attempt_owns_download, queue_uses_attempt, row_has_id, store_valid, store_wf,
};
use crate::store_model::{
    AdmissionAttemptView, AdmissionRequestView, DestinationView, DownloadAdmissionPosition,
    DownloadAdmissionRequest, DownloadStoreData, PersistedAdmissionAttempt, PersistedDownload,
    PersistedQueueAdmission, PositionView, QueueAdmissionView, StoreView, downloads_view,
    persisted_download_matches,
};
use crate::store_ops::{relocation_field, reject_pending_relocation, terminal_owner};
use crate::store_validate::{
    admission_request_error, relocation_error, spec_admission_request_valid, validate_admission_request,
};
use crate::strings::{clone_strings, strings_eq};
use crate::transitions::{
    admission_outcome, admission_publication_outcome, DownloadAdmissionPhase,
    DownloadAdmissionTransition, DurableDownloadAdmission,
};
use crate::uuid_text::{uuid_error_text, uuid_parse_error, uuid_parses};
use vstd::prelude::*;
use vstd::string::StringExecFns;

verus! {

/// What to publish for an admission.
pub enum AdmissionPlan {
    /// The admission is already promoted under this attempt: republish the
    /// unchanged document as its confirmation.
    Reconfirm { document: DownloadStoreData, position: DownloadAdmissionPosition },
    /// Publish the intent; after it is durable, publish its promotion.
    PublishIntent { intent: DownloadStoreData, position: DownloadAdmissionPosition },
}

/// The queue admission carries the request's domain, destination and files.
pub open spec fn queue_matches(q: QueueAdmissionView, req: AdmissionRequestView) -> bool {
    &&& q.domain == req.domain
    &&& q.destination == req.destination
    &&& q.requested_payload_files == req.requested_payload_files
    &&& q.execution_files == req.execution_files
}

/// A pending relocation uses the destination as its source or target.
pub open spec fn reserved_destination(d: StoreView, dest: DestinationView) -> bool {
    exists|k: Seq<char>| #[trigger]
        d.pending_relocations.dom().contains(k) && (d.pending_relocations[k].request.source == dest
            || d.pending_relocations[k].request.target == dest)
}

pub open spec fn uses_destination(rel: crate::store_model::RelocationView, dest: DestinationView) -> bool {
    rel.request.source == dest || rel.request.target == dest
}

/// The document with the admission intent recorded.
pub open spec fn admission_intent(d: StoreView, a: Seq<char>, req: AdmissionRequestView, pos: PositionView) -> StoreView {
    StoreView {
        admission_attempts: d.admission_attempts.insert(a, AdmissionAttemptView { request: req, position: pos }),
        ..d
    }
}

/// The intent document with the attempt promoted into a row and a queue admission.
pub open spec fn admission_promoted(d: StoreView, a: Seq<char>, req: AdmissionRequestView, pos: PositionView) -> StoreView {
    StoreView {
        admission_attempts: d.admission_attempts.remove(a),
        downloads: d.downloads.push(req.snapshot),
        queue_admissions: d.queue_admissions.insert(
            req.snapshot.download_id,
            QueueAdmissionView {
                attempt_id: a,
                domain: req.domain,
                destination: req.destination,
                requested_payload_files: req.requested_payload_files,
                execution_files: req.execution_files,
                position: pos,
            },
        ),
        ..d
    }
}

/// The plan publishes the intent for this position, or the intent is invalid.
pub open spec fn intent_outcome(
    d: StoreView,
    a: Seq<char>,
    req: AdmissionRequestView,
    pos: PositionView,
    r: Result<AdmissionPlan, PumasError>,
) -> bool {
    &&& r is Ok <==> store_valid(admission_intent(d, a, req, pos))
    &&& match r {
        Ok(AdmissionPlan::PublishIntent { intent, position }) => position@ == pos && store_wf(intent)
            && intent@ == admission_intent(d, a, req, pos),
        Ok(_) => false,
        Err(e) => store_error(admission_intent(d, a, req, pos), e),
    }
}

pub open spec fn attempts_field() -> Seq<char> {
    "downloads.admission_attempts"@
}

/// What `admit_download` answers for a document, an attempt and a request.
pub open spec fn admit_outcome(
    d: StoreView,
    a: Seq<char>,
    req: AdmissionRequestView,
    r: Result<AdmissionPlan, PumasError>,
) -> bool {
    let id = req.snapshot.download_id;
    if !uuid_parses(a) {
        r matches Err(e) && e@ == ErrorView::Validation {
            field: attempts_field(),
            message: "Invalid download admission attempt: "@ + uuid_error_text(a),
        }
    } else if !spec_admission_request_valid(req) {
        r matches Err(e) && admission_request_error(req, e)
    } else if d.pending_relocations.dom().contains(id) {
        r matches Err(e) && is_error(e, relocation_field(), "Download is owned by a pending relocation"@)
    } else if reserved_destination(d, req.destination) {
        r matches Err(e) && is_error(e, relocation_field(), "Destination is reserved by a pending relocation"@)
    } else if terminal_owner(d, id) {
        r matches Err(e) && is_other(e, "Refusing to admit a revoked or lifecycle-quarantined download"@)
    } else if d.queue_admissions.dom().contains(id) {
        let q = d.queue_admissions[id];
        if q.attempt_id != a || !queue_matches(q, req) || !d.downloads.contains(req.snapshot) {
            r matches Err(e) && is_other(e, "Download admission identity mismatch"@)
        } else {
            r matches Ok(AdmissionPlan::Reconfirm { document, position }) && store_wf(document)
                && document@ == d && position@ == q.position
        }
    } else if queue_uses_attempt(d.queue_admissions, a) || queue_uses_attempt(d.released_queue_admissions, a) {
        r matches Err(e) && is_other(e, "Download admission attempt belongs to another download"@)
    } else if row_has_id(d.downloads, id) {
        r matches Err(e) && is_other(e, "Download ID already has an ordinary persisted owner"@)
    } else if d.admission_attempts.dom().contains(a) {
        let existing = d.admission_attempts[a];
        if existing.request != req {
            r matches Err(e) && is_other(e, "Download admission attempt identity mismatch"@)
        } else {
            intent_outcome(d, a, req, existing.position, r)
        }
    } else if attempt_owns_download(d.admission_attempts, id) {
        r matches Err(e) && is_other(e, "Download ID already has a hidden admission owner"@)
    } else {
        ||| (max_slot(d, req.destination, u64::MAX) && (r matches Err(e) && is_error(
            e,
            "downloads.queue_admissions"@,
            "Download admission ordinal overflow"@,
        )))
        ||| exists|pos: DownloadAdmissionPosition|
            next_position_ok(d, req.destination, Ok(pos)) && #[trigger] intent_outcome(d, a, req, pos@, r)
    }
}

fn destination_reserved(data: &DownloadStoreData, dest: &crate::store_model::PersistedDestinationIdentity) -> (r: bool)
    requires
        store_wf(*data),
    ensures
        r == reserved_destination(data@, dest@),
{
    let v = &data.pending_relocations;
    let mut i: usize = 0;
    while i < v.len()
        invariant
            store_wf(*data),
            v == &data.pending_relocations,
            i <= v@.len(),
            forall|j: int| 0 <= j < i ==> !uses_destination(#[trigger] v@[j].value@, dest@),
        decreases v.len() - i,
    {
        if v[i].value.request.source.same_as(dest) || v[i].value.request.target.same_as(dest) {
            proof {
                lemma_keyed_map_at(v@, i as int);
            }
            return true;
        }
        assert(!uses_destination(v@[i as int].value@, dest@));
        i = i + 1;
    }
    proof {
        if reserved_destination(data@, dest@) {
            let k = choose|k: Seq<char>| #[trigger]
                data@.pending_relocations.dom().contains(k) && (data@.pending_relocations[k].request.source
                    == dest@ || data@.pending_relocations[k].request.target == dest@);
            lemma_keyed_map_key(v@, k);
            let j = index_of_key(v@, k);
            assert(!uses_destination(v@[j].value@, dest@));
        }
    }
    false
}

fn rows_contain(ds: &Vec<PersistedDownload>, x: &PersistedDownload) -> (r: bool)
    ensures
        r == downloads_view(ds@).contains(x@),
{
    let ghost dv = downloads_view(ds@);
    let mut i: usize = 0;
    while i < ds.len()
        invariant
            dv == downloads_view(ds@),
            i <= ds@.len(),
            forall|j: int| 0 <= j < i ==> #[trigger] dv[j] != x@,
        decreases ds.len() - i,
    {
        if persisted_download_matches(&ds[i], x) {
            assert(dv[i as int] == x@);
            return true;
        }
        i = i + 1;
    }
    false
}

/// The queue admission carries the request's domain, destination and files.
pub fn queue_admission_matches_request(admission: &PersistedQueueAdmission, request: &DownloadAdmissionRequest) -> (r: bool)
    ensures
        r == queue_matches(admission@, request@),
{
    admission.domain == request.domain && admission.destination.same_as(&request.destination) && strings_eq(
        &admission.requested_payload_files,
        &request.requested_payload_files,
    ) && strings_eq(&admission.execution_files, &request.execution_files)
}

/// Two admission requests are identical.
pub fn admission_request_matches(left: &DownloadAdmissionRequest, right: &DownloadAdmissionRequest) -> (r: bool)
    ensures
        r == (left@ == right@),
{
    left.domain == right.domain && left.destination.same_as(&right.destination) && strings_eq(
        &left.requested_payload_files,
        &right.requested_payload_files,
    ) && strings_eq(&left.execution_files, &right.execution_files) && persisted_download_matches(
        &left.snapshot,
        &right.snapshot,
    )
}

impl DownloadPersistence {
    /// Decide how to admit a download under a caller-chosen attempt id.
    /// Every refusal happens before anything is published.
    pub fn admit_download(&self, data: DownloadStoreData, attempt_id: &str, request: &DownloadAdmissionRequest) -> (r:
        Result<AdmissionPlan, PumasError>)
        requires
            store_wf(data),
            store_valid(data@),
        ensures
            admit_outcome(data@, attempt_id@, request@, r),
    {
        let mut data = data;
        match uuid_parse_error(attempt_id) {
            Some(source) => {
                proof {
                    reveal_strlit("Invalid download admission attempt: ");
                }
                let mut message = "Invalid download admission attempt: ".to_owned();
                message.append(source.as_str());
                return Err(
                    PumasError::Validation { field: "downloads.admission_attempts".to_owned(), message },
                );
            },
            None => {},
        }
        validate_admission_request(request)?;
        let download_id = &request.snapshot.download_id;
        reject_pending_relocation(&data, download_id)?;
        if destination_reserved(&data, &request.destination) {
            return Err(relocation_error("Destination is reserved by a pending relocation"));
        }
        if key_present(&data.recovery_revocations, download_id) || key_present(
            &data.lifecycle_quarantines,
            download_id,
        ) || key_present(&data.released_queue_admissions, download_id) {
            return Err(other_error("Refusing to admit a revoked or lifecycle-quarantined download"));
        }
        let attempt = attempt_id.to_owned();
        match find_key(&data.queue_admissions, download_id) {
            Some(i) => {
                let admission = &data.queue_admissions[i].value;
                if admission.attempt_id != attempt || !queue_admission_matches_request(admission, request)
                    || !rows_contain(&data.downloads, &request.snapshot) {
                    return Err(other_error("Download admission identity mismatch"));
                }
                let position = admission.position.duplicate();
                validate_store_data(&data)?;
                return Ok(AdmissionPlan::Reconfirm { document: data, position });
            },
            None => {},
        }
        if queue_uses_attempt_exec(&data.queue_admissions, &attempt) || queue_uses_attempt_exec(
            &data.released_queue_admissions,
            &attempt,
        ) {
            return Err(other_error("Download admission attempt belongs to another download"));
        }
        if find_row(&data.downloads, download_id).is_some() {
            return Err(other_error("Download ID already has an ordinary persisted owner"));
        }
        let ghost d0 = data@;
        let position = match find_key(&data.admission_attempts, &attempt) {
            Some(i) => {
                let existing = &data.admission_attempts[i].value;
                if !admission_request_matches(&existing.request, request) {
                    return Err(other_error("Download admission attempt identity mismatch"));
                }
                let position = existing.position.duplicate();
                proof {
                    assert(d0.admission_attempts.insert(
                        attempt@,
                        AdmissionAttemptView { request: request@, position: position@ },
                    ) =~= d0.admission_attempts);
                }
                position
            },
            None => {
                if attempt_owns_download_exec(&data.admission_attempts, download_id) {
                    return Err(other_error("Download ID already has a hidden admission owner"));
                }
                let pos_result = next_admission_position(&data, &request.destination);
                let position = match pos_result {
                    Ok(p) => p,
                    Err(e) => {
                        return Err(e);
                    },
                };
                proof {
                    assert(next_position_ok(d0, request@.destination, Ok::<DownloadAdmissionPosition, PumasError>(position)));
                }
                insert_key(
                    &mut data.admission_attempts,
                    attempt.clone(),
                    PersistedAdmissionAttempt { request: request.duplicate(), position: position.duplicate() },
                );
                position
            },
        };
        assert(data@ == admission_intent(d0, attempt@, request@, position@));
        let ghost pv = position@;
        match validate_store_data(&data) {
            Err(e) => {
                let r = Err(e);
                proof {
                    assert(intent_outcome(d0, attempt@, request@, pv, r));
                }
                return r;
            },
            Ok(()) => {},
        }
        let r = Ok(AdmissionPlan::PublishIntent { intent: data, position });
        proof {
            assert(intent_outcome(d0, attempt@, request@, pv, r));
        }
        r
    }

    /// The promotion published after a durable intent.
    pub fn promote_admission(
        &self,
        intent: DownloadStoreData,
        attempt_id: &str,
        request: &DownloadAdmissionRequest,
        position: &DownloadAdmissionPosition,
    ) -> (r: Result<DownloadStoreData, PumasError>)
        requires
            store_wf(intent),
        ensures
            r is Ok <==> store_valid(admission_promoted(intent@, attempt_id@, request@, position@)),
            r matches Ok(n) ==> store_wf(n) && n@ == admission_promoted(intent@, attempt_id@, request@, position@),
            r matches Err(e) ==> store_error(admission_promoted(intent@, attempt_id@, request@, position@), e),
    {
        let mut data = intent;
        let ghost d0 = data@;
        let attempt = attempt_id.to_owned();
        let _ = remove_key(&mut data.admission_attempts, &attempt);
        data.downloads.push(request.snapshot.duplicate());
        assert(downloads_view(data.downloads@) =~= d0.downloads.push(request@.snapshot));
        insert_key(
            &mut data.queue_admissions,
            request.snapshot.download_id.clone(),
            PersistedQueueAdmission {
                attempt_id: attempt,
                domain: request.domain,
                destination: request.destination.duplicate(),
                requested_payload_files: clone_strings(&request.requested_payload_files),
                execution_files: clone_strings(&request.execution_files),
                position: position.duplicate(),
            },
        );
        assert(data@ == admission_promoted(d0, attempt_id@, request@, position@));
        validate_store_data(&data)?;
        Ok(data)
    }

    /// Settle a confirmation publication: a durable one confirms the attempt
    /// in this process and makes the admission durable; any other outcome
    /// is reported as it is.
    pub fn complete_admission(
        &mut self,
        attempt_id: &str,
        publication: Result<AtomicPublication, AtomicPublishFailure>,
        position: DownloadAdmissionPosition,
    ) -> (r: DownloadAdmissionTransition)
        ensures
            publication matches Ok(AtomicPublication::Durable) ==> {
                &&& r matches DownloadAdmissionTransition::Durable { admission } && admission.position == position
                &&& final(self)@.confirmed_admissions == old(self)@.confirmed_admissions.insert(attempt_id@)
            },
            !(publication matches Ok(AtomicPublication::Durable)) ==> {
                &&& final(self)@ == old(self)@
                &&& admission_outcome(attempt_id@, DownloadAdmissionPhase::Confirmation, publication, r)
            },
            final(self)@.path == old(self)@.path,
            final(self)@.confirmed_cleanups == old(self)@.confirmed_cleanups,
    {
        match admission_publication_outcome(attempt_id, DownloadAdmissionPhase::Confirmation, publication) {
            Some(outcome) => outcome,
            None => {
                self.confirm_admission(attempt_id);
                DownloadAdmissionTransition::Durable { admission: DurableDownloadAdmission { position } }
            },
        }
    }
}

} // verus!
