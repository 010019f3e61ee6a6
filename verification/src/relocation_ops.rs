//! Relocating a legacy download between two destinations under one root.
//!
//! `begin_legacy_relocation` parks both destinations behind a pending intent
//! before the lifecycle owner moves anything; `finish_legacy_relocation`
//! (after a proved move) or `abort_legacy_relocation` (after a proved
//! non-move) settles it.

use crate::error::{is_error, PumasError};
use crate::keyed::{
    find_key, index_of_key, insert_key, lemma_keyed_map_at, lemma_keyed_map_key, remove_key,
};
use crate::persistence::DownloadPersistence;
use crate::store_check::{
    store_error,
    attempt_owns_download_exec, find_row, key_present, lemma_first_with_id, queue_uses_attempt_exec,
    validate_store_data,
};
use crate::store_invariant::{
    attempt_owns_download, first_with_id, is_inactive, queue_uses_attempt, row_has_id, store_valid,
    store_wf,
};
use crate::store_model::{
    downloads_view, persisted_download_matches, DownloadRequestView, DownloadStatus,
    DownloadStoreData, LegacyRelocationRequest, PersistedDownload, PersistedDownloadView,
    PersistedLegacyRelocation, RelocationRequestView, RelocationView, StoreView,
};
use crate::store_ops::relocation_field;
use crate::store_validate::{
    relocation_error, spec_relocation_request_valid, validate_relocation_request,
};
use crate::strings::clone_string;
use crate::uuid_text::{uuid_is_valid, uuid_parses};
use vstd::prelude::*;

verus! {

/// Some pending relocation uses the attempt id.
pub open spec fn relocation_uses_attempt(m: Map<Seq<char>, RelocationView>, a: Seq<char>) -> bool {
    exists|k: Seq<char>| #[trigger] m.dom().contains(k) && m[k].attempt_id == a
}

pub open spec fn relocation_refusal(d: StoreView, a: Seq<char>, expected: PersistedDownloadView, req: RelocationRequestView) -> Option<
    Seq<char>,
> {
    let id = expected.download_id;
    let current = d.downloads[first_with_id(d.downloads, id)];
    if !uuid_parses(a) {
        Some("Invalid relocation attempt"@)
    } else if !spec_relocation_request_valid(req) {
        Some("Relocation requires distinct destinations under the same root"@)
    } else if d.queue_admissions.dom().contains(id) || d.released_queue_admissions.dom().contains(id)
        || d.recovery_revocations.dom().contains(id) || d.lifecycle_quarantines.dom().contains(id)
        || attempt_owns_download(d.admission_attempts, id) {
        Some("Relocation requires an ordinary legacy owner"@)
    } else if !row_has_id(d.downloads, id) {
        Some("Relocation source is missing"@)
    } else if current != expected {
        Some("Relocation source snapshot changed"@)
    } else if !is_inactive(current.status) {
        Some("Relocation source must be inactive"@)
    } else if d.pending_relocations.dom().contains(id) {
        if d.pending_relocations[id].attempt_id != a || d.pending_relocations[id].request != req {
            Some("Relocation attempt identity mismatch"@)
        } else {
            None
        }
    } else if relocation_uses_attempt(d.pending_relocations, a) || d.admission_attempts.dom().contains(a)
        || queue_uses_attempt(d.queue_admissions, a) || queue_uses_attempt(d.released_queue_admissions, a) {
        Some("Relocation attempt already belongs to another owner"@)
    } else {
        None
    }
}

/// The document that parks both destinations behind the intent.
pub open spec fn relocation_intent(d: StoreView, a: Seq<char>, id: Seq<char>, req: RelocationRequestView) -> StoreView {
    StoreView { pending_relocations: d.pending_relocations.insert(id, RelocationView { attempt_id: a, request: req }), ..d }
}

/// The row after a proved move: its new directory, and the request's model
/// type and family when the relocation names them.
pub open spec fn relocated_row(r: PersistedDownloadView, req: RelocationRequestView) -> PersistedDownloadView {
    PersistedDownloadView {
        dest_dir: req.target_dir,
        download_request: DownloadRequestView {
            model_type: if req.model_type is Some {
                req.model_type
            } else {
                r.download_request.model_type
            },
            family: match req.family {
                Some(f) => f,
                None => r.download_request.family,
            },
            ..r.download_request
        },
        ..r
    }
}

/// The document after settling the relocation of `id`.
pub open spec fn relocation_completed(d: StoreView, id: Seq<char>, moved: bool) -> StoreView {
    let i = first_with_id(d.downloads, id);
    let rows = if moved {
        d.downloads.update(i, relocated_row(d.downloads[i], d.pending_relocations[id].request))
    } else {
        d.downloads
    };
    StoreView { downloads: rows, pending_relocations: d.pending_relocations.remove(id), ..d }
}

fn relocation_attempt_used(data: &DownloadStoreData, a: &String) -> (r: bool)
    requires
        store_wf(*data),
    ensures
        r == relocation_uses_attempt(data@.pending_relocations, a@),
{
    let v = &data.pending_relocations;
    let mut i: usize = 0;
    while i < v.len()
        invariant
            store_wf(*data),
            v == &data.pending_relocations,
            i <= v@.len(),
            forall|j: int| 0 <= j < i ==> #[trigger] v@[j].value.attempt_id@ != a@,
        decreases v.len() - i,
    {
        if v[i].value.attempt_id == *a {
            proof {
                lemma_keyed_map_at(v@, i as int);
            }
            return true;
        }
        i = i + 1;
    }
    proof {
        if relocation_uses_attempt(data@.pending_relocations, a@) {
            let k = choose|k: Seq<char>| #[trigger]
                data@.pending_relocations.dom().contains(k) && data@.pending_relocations[k].attempt_id == a@;
            lemma_keyed_map_key(v@, k);
            let j = index_of_key(v@, k);
            assert(v@[j].value.attempt_id@ != a@);
        }
    }
    false
}

fn relocation_checks(
    data: &DownloadStoreData,
    attempt_id: &str,
    expected: &PersistedDownload,
    request: &LegacyRelocationRequest,
) -> (r: Result<bool, PumasError>)
    requires
        store_wf(*data),
    ensures
        match relocation_refusal(data@, attempt_id@, expected@, request@) {
            Some(m) => r matches Err(e) && is_error(e, relocation_field(), m),
            None => r == Ok::<bool, PumasError>(data@.pending_relocations.dom().contains(expected@.download_id)),
        },
{
    proof {
        reveal_strlit("Relocation requires distinct destinations under the same root");
    }
    let ghost d = data@;
    if !uuid_is_valid(attempt_id) {
        return Err(relocation_error("Invalid relocation attempt"));
    }
    validate_relocation_request(request)?;
    let id = &expected.download_id;
    if key_present(&data.queue_admissions, id) || key_present(&data.released_queue_admissions, id) || key_present(
        &data.recovery_revocations,
        id,
    ) || key_present(&data.lifecycle_quarantines, id) || attempt_owns_download_exec(&data.admission_attempts, id) {
        return Err(relocation_error("Relocation requires an ordinary legacy owner"));
    }
    let i = match find_row(&data.downloads, id) {
        Some(i) => i,
        None => {
            return Err(relocation_error("Relocation source is missing"));
        },
    };
    proof {
        lemma_first_with_id(d.downloads, id@, i as int);
    }
    let current = &data.downloads[i];
    if !persisted_download_matches(current, expected) {
        return Err(relocation_error("Relocation source snapshot changed"));
    }
    if !matches!(current.status, DownloadStatus::Paused | DownloadStatus::Error) {
        return Err(relocation_error("Relocation source must be inactive"));
    }
    let attempt = attempt_id.to_owned();
    match find_key(&data.pending_relocations, id) {
        Some(j) => {
            let existing = &data.pending_relocations[j].value;
            if existing.attempt_id != attempt || !existing.request.same_as(request) {
                return Err(relocation_error("Relocation attempt identity mismatch"));
            }
            Ok(true)
        },
        None => {
            if relocation_attempt_used(data, &attempt) || key_present(&data.admission_attempts, &attempt)
                || queue_uses_attempt_exec(&data.queue_admissions, &attempt) || queue_uses_attempt_exec(
                &data.released_queue_admissions,
                &attempt,
            ) {
                return Err(relocation_error("Relocation attempt already belongs to another owner"));
            }
            Ok(false)
        },
    }
}

impl DownloadPersistence {
    /// The document that parks both destinations of a legacy relocation
    /// before any move; the caller publishes it and reports the outcome.
    pub fn begin_legacy_relocation(
        &self,
        data: DownloadStoreData,
        attempt_id: &str,
        expected: &PersistedDownload,
        request: &LegacyRelocationRequest,
    ) -> (r: Result<DownloadStoreData, PumasError>)
        requires
            store_wf(data),
        ensures
            ({
                let d = data@;
                let n = relocation_intent(d, attempt_id@, expected@.download_id, request@);
                match relocation_refusal(d, attempt_id@, expected@, request@) {
                    Some(m) => r matches Err(e) && is_error(e, relocation_field(), m),
                    None => {
                        &&& r is Ok <==> store_valid(n)
                        &&& r matches Ok(x) ==> store_wf(x) && x@ == n
                        &&& r matches Err(e) ==> store_error(n, e)
                    },
                }
            }),
    {
        let mut data = data;
        let ghost d0 = data@;
        let parked = relocation_checks(&data, attempt_id, expected, request)?;
        if parked {
            let i = find_key(&data.pending_relocations, &expected.download_id);
            proof {
                assert(d0.pending_relocations.insert(
                    expected@.download_id,
                    RelocationView { attempt_id: attempt_id@, request: request@ },
                ) =~= d0.pending_relocations);
            }
        } else {
            insert_key(
                &mut data.pending_relocations,
                clone_string(&expected.download_id),
                PersistedLegacyRelocation { attempt_id: attempt_id.to_owned(), request: request.duplicate() },
            );
        }
        assert(data@ == relocation_intent(d0, attempt_id@, expected@.download_id, request@));
        validate_store_data(&data)?;
        Ok(data)
    }

    /// After a proved durable move: retarget the row and drop the intent.
    pub fn finish_legacy_relocation(&self, data: DownloadStoreData, download_id: &String, attempt_id: &String) -> (r:
        Result<DownloadStoreData, PumasError>)
        requires
            store_wf(data),
            store_valid(data@),
        ensures
            relocation_settled(data@, download_id@, attempt_id@, true, r),
    {
        self.complete_legacy_relocation(data, download_id, attempt_id, true)
    }

    /// After a proved non-move: drop the intent and keep the row.
    pub fn abort_legacy_relocation(&self, data: DownloadStoreData, download_id: &String, attempt_id: &String) -> (r:
        Result<DownloadStoreData, PumasError>)
        requires
            store_wf(data),
            store_valid(data@),
        ensures
            relocation_settled(data@, download_id@, attempt_id@, false, r),
    {
        self.complete_legacy_relocation(data, download_id, attempt_id, false)
    }

    fn complete_legacy_relocation(&self, data: DownloadStoreData, download_id: &String, attempt_id: &String, moved: bool) -> (r:
        Result<DownloadStoreData, PumasError>)
        requires
            store_wf(data),
            store_valid(data@),
        ensures
            relocation_settled(data@, download_id@, attempt_id@, moved, r),
    {
        let mut data = data;
        let ghost d0 = data@;
        let j = match find_key(&data.pending_relocations, download_id) {
            Some(j) => j,
            None => {
                return Err(relocation_error("Relocation intent is missing; inspect authoritative state"));
            },
        };
        if data.pending_relocations[j].value.attempt_id != *attempt_id {
            return Err(relocation_error("Relocation attempt identity mismatch"));
        }
        if moved {
            let request = data.pending_relocations[j].value.request.duplicate();
            proof {
                assert(crate::store_invariant::relocation_entry_ok(d0, download_id@, d0.pending_relocations[download_id@]));
                let w = choose|w: int|
                    0 <= w < d0.downloads.len() && #[trigger] d0.downloads[w].download_id == download_id@
                        && is_inactive(d0.downloads[w].status);
                assert(row_has_id(d0.downloads, download_id@));
            }
            let i = find_row(&data.downloads, download_id).unwrap();
            proof {
                lemma_first_with_id(d0.downloads, download_id@, i as int);
            }
            let mut row = data.downloads[i].duplicate();
            row.dest_dir = clone_string(&request.target_dir);
            if let Some(model_type) = &request.model_type {
                row.download_request.model_type = Some(clone_string(model_type));
            }
            if let Some(family) = &request.family {
                row.download_request.family = clone_string(family);
            }
            assert(row@ == relocated_row(d0.downloads[i as int], d0.pending_relocations[download_id@].request));
            data.downloads.set(i, row);
            assert(downloads_view(data.downloads@) =~= d0.downloads.update(
                i as int,
                relocated_row(d0.downloads[i as int], d0.pending_relocations[download_id@].request),
            ));
        }
        let _ = remove_key(&mut data.pending_relocations, download_id);
        assert(data@ == relocation_completed(d0, download_id@, moved));
        validate_store_data(&data)?;
        Ok(data)
    }
}

/// What settling a relocation answers.
pub open spec fn relocation_settled(
    d: StoreView,
    id: Seq<char>,
    a: Seq<char>,
    moved: bool,
    r: Result<DownloadStoreData, PumasError>,
) -> bool {
    if !d.pending_relocations.dom().contains(id) {
        r matches Err(e) && is_error(e, relocation_field(), "Relocation intent is missing; inspect authoritative state"@)
    } else if d.pending_relocations[id].attempt_id != a {
        r matches Err(e) && is_error(e, relocation_field(), "Relocation attempt identity mismatch"@)
    } else {
        let n = relocation_completed(d, id, moved);
        &&& r is Ok <==> store_valid(n)
        &&& r matches Ok(x) ==> store_wf(x) && x@ == n
        &&& r matches Err(e) ==> store_error(n, e)
    }
}

} // verus!
