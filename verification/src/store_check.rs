//! Executable check of the store document invariant.

use crate::error::{is_error, is_validation, validation_error, PumasError};
use crate::keyed::{
    index_of_key, keyed_map, keys_sorted, keys_unique, lemma_keyed_map_at, lemma_keyed_map_key,
    lemma_sorted_position, Keyed,
};
use crate::store_invariant::{
    attempt_owns_download, attempt_ids_unique, attempts_ok, distinct_attempts, downloads_ok,
    first_with_id, is_first_with_id, quarantine_entry_ok, quarantines_ok, queue_entry_ok, queue_ok,
    queue_request, queue_uses_attempt, released_ok, revocations_ok, row_has_id, store_wf,
    attempt_slots_distinct, queue_slots_distinct, released_slots_distinct, attempt_slot, queue_slot, owner_of, predecessor_ok, predecessors_ok,
    relocation_entry_ok, relocations_ok, is_inactive, store_valid, quarantine_status,
};
use crate::store_validate::{relocation_error, spec_relocation_request_valid, validate_relocation_request};
use crate::store_validate::{admission_request_error, spec_admission_request_valid, validate_admission_request};
use crate::store_model::{
    DownloadAdmissionRequest, DownloadStatus, LifecycleQuarantineDomain,
    PersistedLifecycleCleanupDisposition, PersistedRevocationDisposition, DownloadStoreData,
    DownloadAdmissionPosition, PersistedDestinationIdentity, DestinationView, PositionView,
    PersistedLegacyRelocation, PersistedAdmissionAttempt, PersistedDownload, PersistedDownloadView,
    PersistedQueueAdmission, StoreView, downloads_view, DOWNLOAD_STORE_SCHEMA_VERSION,
};
use crate::order::{seq_lt, str_lt};
use crate::strings::clone_string;
use crate::text::{is_blank, is_blank_exec};
use crate::recovery_ticket::{decimal, decimal_text};
use crate::uuid_text::{uuid_error_text, uuid_is_valid, uuid_parse_error, uuid_parses};
use vstd::prelude::*;

verus! {

/// `prefix`, `text` and `suffix`, joined.
fn framed(prefix: &str, text: &str, suffix: &str) -> (r: String)
    ensures
        r@ == prefix@ + text@ + suffix@,
{
    let mut r = prefix.to_owned();
    r.append(text);
    r.append(suffix);
    r
}

/// A validation error of `field` with the message built for the record.
fn invalid(field: &str, message: String) -> (e: PumasError)
    ensures
        e matches PumasError::Validation { field: f, message: m } && f@ == field@ && m@ == message@,
{
    PumasError::Validation { field: field.to_owned(), message }
}

/// Position of the first row with the given download id.
pub fn find_row(ds: &Vec<PersistedDownload>, id: &String) -> (r: Option<usize>)
    ensures
        match r {
            Some(i) => is_first_with_id(downloads_view(ds@), id@, i as int),
            None => !row_has_id(downloads_view(ds@), id@),
        },
{
    let ghost dv = downloads_view(ds@);
    let mut i: usize = 0;
    while i < ds.len()
        invariant
            dv == downloads_view(ds@),
            i <= ds@.len(),
            forall|j: int| 0 <= j < i ==> #[trigger] dv[j].download_id != id@,
        decreases ds.len() - i,
    {
        if ds[i].download_id == *id {
            return Some(i);
        }
        i = i + 1;
    }
    None
}

/// The row found by `find_row` is the one `first_with_id` names.
pub proof fn lemma_first_with_id(ds: Seq<PersistedDownloadView>, id: Seq<char>, i: int)
    requires
        is_first_with_id(ds, id, i),
    ensures
        first_with_id(ds, id) == i,
{
    let j = first_with_id(ds, id);
    assert(is_first_with_id(ds, id, j));
    if j < i {
        assert(ds[j].download_id != id);
    } else if j > i {
        assert(ds[i].download_id != id);
    }
}

pub fn queue_uses_attempt_exec(v: &Vec<Keyed<PersistedQueueAdmission>>, a: &String) -> (r: bool)
    requires
        keys_unique(v@),
    ensures
        r == queue_uses_attempt(keyed_map(v@), a@),
{
    let mut i: usize = 0;
    while i < v.len()
        invariant
            keys_unique(v@),
            i <= v@.len(),
            forall|j: int| 0 <= j < i ==> #[trigger] v@[j].value.attempt_id@ != a@,
        decreases v.len() - i,
    {
        if v[i].value.attempt_id == *a {
            proof {
                lemma_keyed_map_at(v@, i as int);
            }
            return true;
        }
        i = i + 1;
    }
    proof {
        if queue_uses_attempt(keyed_map(v@), a@) {
            let k = choose|k: Seq<char>|
                #[trigger] keyed_map(v@).dom().contains(k) && keyed_map(v@)[k].attempt_id == a@;
            lemma_keyed_map_key(v@, k);
            assert(v@[index_of_key(v@, k)].value.attempt_id@ == a@);
        }
    }
    false
}

pub fn attempt_owns_download_exec(v: &Vec<Keyed<PersistedAdmissionAttempt>>, id: &String) -> (r: bool)
    requires
        keys_unique(v@),
    ensures
        r == attempt_owns_download(keyed_map(v@), id@),
{
    let mut i: usize = 0;
    while i < v.len()
        invariant
            keys_unique(v@),
            i <= v@.len(),
            forall|j: int| 0 <= j < i ==> #[trigger] v@[j].value.request.snapshot.download_id@ != id@,
        decreases v.len() - i,
    {
        if v[i].value.request.snapshot.download_id == *id {
            proof {
                lemma_keyed_map_at(v@, i as int);
            }
            return true;
        }
        i = i + 1;
    }
    proof {
        if attempt_owns_download(keyed_map(v@), id@) {
            let k = choose|k: Seq<char>|
                #[trigger] keyed_map(v@).dom().contains(k)
                    && keyed_map(v@)[k].request.snapshot.download_id == id@;
            lemma_keyed_map_key(v@, k);
            assert(v@[index_of_key(v@, k)].value.request.snapshot.download_id@ == id@);
        }
    }
    false
}

pub fn key_present<V: View>(v: &Vec<Keyed<V>>, k: &String) -> (r: bool)
    requires
        keys_unique(v@),
    ensures
        r == keyed_map(v@).dom().contains(k@),
{
    crate::keyed::find_key(v, k).is_some()
}

fn attempt_err() -> (e: PumasError)
    ensures
        is_error(e, "downloads.admission_attempts"@, "Admission attempt identity is owned by more than one record"@),
{
    validation_error(
        "downloads.admission_attempts",
        "Admission attempt identity is owned by more than one record",
    )
}

fn check_distinct_attempts(v: &Vec<Keyed<PersistedQueueAdmission>>) -> (r: bool)
    requires
        keys_unique(v@),
    ensures
        r == distinct_attempts(keyed_map(v@)),
{
    let mut i: usize = 0;
    while i < v.len()
        invariant
            keys_unique(v@),
            i <= v@.len(),
            forall|a: int, b: int|
                0 <= a < i && 0 <= b < i && a != b ==> #[trigger] v@[a].value.attempt_id@
                    != #[trigger] v@[b].value.attempt_id@,
        decreases v.len() - i,
    {
        let mut j: usize = 0;
        while j < i
            invariant
                keys_unique(v@),
                j <= i < v@.len(),
                forall|b: int| 0 <= b < j ==> v@[b].value.attempt_id@ != v@[i as int].value.attempt_id@,
            decreases i - j,
        {
            if v[j].value.attempt_id == v[i].value.attempt_id {
                proof {
                    lemma_keyed_map_at(v@, i as int);
                    lemma_keyed_map_at(v@, j as int);
                    assert(v@[i as int].key@ != v@[j as int].key@);
                }
                return false;
            }
            j = j + 1;
        }
        i = i + 1;
    }
    proof {
        assert forall|a: Seq<char>, b: Seq<char>|
            #[trigger] keyed_map(v@).dom().contains(a) && #[trigger] keyed_map(v@).dom().contains(b)
                && a != b implies keyed_map(v@)[a].attempt_id != keyed_map(v@)[b].attempt_id by {
            lemma_keyed_map_key(v@, a);
            lemma_keyed_map_key(v@, b);
            let ia = index_of_key(v@, a);
            let ib = index_of_key(v@, b);
            assert(ia != ib);
            assert(v@[ia].value.attempt_id@ != v@[ib].value.attempt_id@);
        }
    }
    true
}

/// Each admission attempt id has exactly one owner record.
pub fn check_attempt_ids(d: &DownloadStoreData) -> (r: Result<(), PumasError>)
    requires
        store_wf(*d),
    ensures
        r is Ok <==> attempt_ids_unique(d@),
        r matches Err(e) ==> is_error(e, "downloads.admission_attempts"@, "Admission attempt identity is owned by more than one record"@),
{
    let v = &d.admission_attempts;
    let mut i: usize = 0;
    while i < v.len()
        invariant
            store_wf(*d),
            v == &d.admission_attempts,
            i <= v@.len(),
            forall|j: int|
                0 <= j < i ==> !queue_uses_attempt(d@.queue_admissions, #[trigger] v@[j].key@)
                    && !queue_uses_attempt(d@.released_queue_admissions, v@[j].key@),
        decreases v.len() - i,
    {
        if queue_uses_attempt_exec(&d.queue_admissions, &v[i].key) || queue_uses_attempt_exec(
            &d.released_queue_admissions,
            &v[i].key,
        ) {
            proof {
                lemma_keyed_map_at(v@, i as int);
                assert(d@.admission_attempts.dom().contains(v@[i as int].key@));
            }
            return Err(attempt_err());
        }
        i = i + 1;
    }
    if !check_distinct_attempts(&d.queue_admissions) || !check_distinct_attempts(
        &d.released_queue_admissions,
    ) {
        return Err(attempt_err());
    }
    let q = &d.queue_admissions;
    let mut i: usize = 0;
    while i < q.len()
        invariant
            store_wf(*d),
            q == &d.queue_admissions,
            i <= q@.len(),
            forall|j: int|
                0 <= j < i ==> !queue_uses_attempt(
                    d@.released_queue_admissions,
                    #[trigger] q@[j].value.attempt_id@,
                ),
        decreases q.len() - i,
    {
        if queue_uses_attempt_exec(&d.released_queue_admissions, &q[i].value.attempt_id) {
            proof {
                lemma_keyed_map_at(q@, i as int);
            }
            return Err(attempt_err());
        }
        i = i + 1;
    }
    proof {
        assert forall|k: Seq<char>| #[trigger]
            d@.admission_attempts.dom().contains(k) implies !queue_uses_attempt(
            d@.queue_admissions,
            k,
        ) && !queue_uses_attempt(d@.released_queue_admissions, k) by {
            lemma_keyed_map_key(v@, k);
            assert(v@[index_of_key(v@, k)].key@ == k);
        }
        assert forall|a: Seq<char>| #[trigger]
            d@.queue_admissions.dom().contains(a) implies !queue_uses_attempt(
            d@.released_queue_admissions,
            d@.queue_admissions[a].attempt_id,
        ) by {
            lemma_keyed_map_key(q@, a);
            assert(q@[index_of_key(q@, a)].value.attempt_id@ == d@.queue_admissions[a].attempt_id);
        }
    }
    Ok(())
}

/// Row `i` repeats the id of an earlier row.
pub open spec fn row_repeats_id(ds: Seq<PersistedDownloadView>, i: int) -> bool {
    exists|j: int| 0 <= j < i && #[trigger] ds[j].download_id == ds[i].download_id
}

/// Row `i` repeats an earlier id or belongs to a revoked download.
pub open spec fn row_faulty(d: StoreView, i: int) -> bool {
    row_repeats_id(d.downloads, i) || d.recovery_revocations.dom().contains(d.downloads[i].download_id)
}

/// The error for the first faulty row: its repeated id, or else its
/// revocation.
pub open spec fn downloads_error(d: StoreView, e: PumasError) -> bool {
    exists|i: int|
        #![trigger d.downloads[i]]
        0 <= i < d.downloads.len() && row_faulty(d, i) && (forall|j: int| 0 <= j < i ==> !row_faulty(d, j)) && {
            let id = d.downloads[i].download_id;
            if row_repeats_id(d.downloads, i) {
                is_error(e, "downloads.download_id"@, "Duplicate persisted download ID "@ + id)
            } else {
                is_error(e, "downloads.recovery_revocations"@, "Download "@ + id + " is both active and recovery-revoked"@)
            }
        }
}

/// Download ids are unique and none is revoked.
pub fn check_downloads(d: &DownloadStoreData) -> (r: Result<(), PumasError>)
    requires
        store_wf(*d),
    ensures
        r is Ok <==> downloads_ok(d@),
        r matches Err(e) ==> downloads_error(d@, e),
{
    let ds = &d.downloads;
    let ghost dv = d@.downloads;
    let mut i: usize = 0;
    while i < ds.len()
        invariant
            store_wf(*d),
            ds == &d.downloads,
            dv == d@.downloads,
            i <= ds@.len(),
            forall|a: int, b: int|
                0 <= a < i && 0 <= b < i && a != b ==> #[trigger] dv[a].download_id
                    != #[trigger] dv[b].download_id,
            forall|a: int| 0 <= a < i ==> !d@.recovery_revocations.dom().contains(#[trigger] dv[a].download_id),
        decreases ds.len() - i,
    {
        let mut j: usize = 0;
        while j < i
            invariant
                ds == &d.downloads,
                dv == d@.downloads,
                j <= i < ds@.len(),
                forall|b: int| 0 <= b < j ==> dv[b].download_id != dv[i as int].download_id,
                forall|a: int, b: int|
                    0 <= a < i && 0 <= b < i && a != b ==> #[trigger] dv[a].download_id
                        != #[trigger] dv[b].download_id,
                forall|a: int| 0 <= a < i ==> !d@.recovery_revocations.dom().contains(#[trigger] dv[a].download_id),
            decreases i - j,
        {
            if ds[j].download_id == ds[i].download_id {
                assert(dv[j as int].download_id == dv[i as int].download_id);
                let message = framed("Duplicate persisted download ID ", ds[i].download_id.as_str(), "");
                proof {
                    reveal_strlit("");
                    assert(message@ =~= "Duplicate persisted download ID "@ + dv[i as int].download_id);
                    assert(row_repeats_id(dv, i as int));
                    assert forall|k: int| 0 <= k < i implies !row_faulty(d@, k) by {
                        if row_repeats_id(dv, k) {
                            let b = choose|b: int| 0 <= b < k && #[trigger] dv[b].download_id == dv[k].download_id;
                            assert(dv[b].download_id == dv[k].download_id);
                        }
                    }
                }
                return Err(invalid("downloads.download_id", message));
            }
            j = j + 1;
        }
        if key_present(&d.recovery_revocations, &ds[i].download_id) {
            assert(d@.recovery_revocations.dom().contains(dv[i as int].download_id));
            proof {
                assert(!row_repeats_id(dv, i as int));
                assert forall|k: int| 0 <= k < i implies !row_faulty(d@, k) by {
                    if row_repeats_id(dv, k) {
                        let b = choose|b: int| 0 <= b < k && #[trigger] dv[b].download_id == dv[k].download_id;
                        assert(dv[b].download_id == dv[k].download_id);
                    }
                }
            }
            return Err(
                invalid(
                    "downloads.recovery_revocations",
                    framed("Download ", ds[i].download_id.as_str(), " is both active and recovery-revoked"),
                ),
            );
        }
        i = i + 1;
    }
    Ok(())
}

pub open spec fn revocations_field() -> Seq<char> {
    "downloads.recovery_revocations"@
}

/// The revocation of `k` breaks a rule: its id is blank or its attempt
/// does not parse.
pub open spec fn revocation_fault(d: StoreView, k: Seq<char>) -> bool {
    is_blank(k) || !uuid_parses(d.recovery_revocations[k].attempt_id)
}

/// The error reported for a faulty revocation.
pub open spec fn revocation_error(d: StoreView, k: Seq<char>, e: PumasError) -> bool {
    if is_blank(k) {
        is_error(e, revocations_field(), "Recovery revocation has an empty download ID"@)
    } else {
        is_error(
            e,
            revocations_field(),
            "Invalid recovery revocation attempt for "@ + k + ": "@ + uuid_error_text(
                d.recovery_revocations[k].attempt_id,
            ),
        )
    }
}

/// The error of the first faulty revocation by download id.
pub open spec fn revocations_error(d: StoreView, e: PumasError) -> bool {
    exists|k: Seq<char>|
        #![trigger d.recovery_revocations[k]]
        d.recovery_revocations.dom().contains(k) && revocation_fault(d, k) && (forall|k2: Seq<char>|
            #![trigger revocation_fault(d, k2)]
            d.recovery_revocations.dom().contains(k2) && seq_lt(k2, k) ==> !revocation_fault(d, k2))
            && revocation_error(d, k, e)
}

/// Revocation tombstones have non-blank ids and valid attempts; the first
/// faulty one by download id is reported.
pub fn check_revocations(d: &DownloadStoreData) -> (r: Result<(), PumasError>)
    requires
        store_wf(*d),
    ensures
        r is Ok <==> revocations_ok(d@),
        r matches Err(e) ==> revocations_error(d@, e),
{
    let v = &d.recovery_revocations;
    let mut i: usize = 0;
    while i < v.len()
        invariant
            store_wf(*d),
            v == &d.recovery_revocations,
            i <= v@.len(),
            forall|j: int|
                0 <= j < i ==> !is_blank(#[trigger] v@[j].key@) && uuid_parses(
                    v@[j].value.attempt_id@,
                ),
        decreases v.len() - i,
    {
        let ghost k = v@[i as int].key@;
        proof {
            lemma_keyed_map_at(v@, i as int);
            assert forall|k2: Seq<char>|
                #[trigger] revocation_fault(d@, k2) && d@.recovery_revocations.dom().contains(k2) implies !seq_lt(
                k2,
                k,
            ) by {
                lemma_sorted_position(v@, i as int, k2);
                let j = index_of_key(v@, k2);
                if j < i {
                    lemma_keyed_map_at(v@, j);
                }
            }
        }
        if is_blank_exec(v[i].key.as_str()) {
            let e = validation_error("downloads.recovery_revocations", "Recovery revocation has an empty download ID");
            assert(revocation_error(d@, k, e));
            return Err(e);
        }
        if let Some(source) = uuid_parse_error(v[i].value.attempt_id.as_str()) {
            let head = framed("Invalid recovery revocation attempt for ", v[i].key.as_str(), ": ");
            let e = invalid("downloads.recovery_revocations", framed(head.as_str(), source.as_str(), ""));
            proof {
                reveal_strlit("");
                assert(revocation_error(d@, k, e));
            }
            return Err(e);
        }
        assert(!is_blank(v@[i as int].key@) && uuid_parses(v@[i as int].value.attempt_id@));
        assert forall|j: int| 0 <= j < i + 1 implies !is_blank(#[trigger] v@[j].key@) && uuid_parses(
            v@[j].value.attempt_id@,
        ) by {}
        i = i + 1;
    }
    proof {
        assert forall|k: Seq<char>| #[trigger]
            d@.recovery_revocations.dom().contains(k) implies !is_blank(k) && uuid_parses(
            d@.recovery_revocations[k].attempt_id,
        ) by {
            lemma_keyed_map_key(v@, k);
            assert(v@[index_of_key(v@, k)].key@ == k);
        }
    }
    Ok(())
}

pub open spec fn attempts_field() -> Seq<char> {
    "downloads.admission_attempts"@
}

pub open spec fn queue_field() -> Seq<char> {
    "downloads.queue_admissions"@
}

/// Download `id` of a hidden admission already has a snapshot owner.
pub open spec fn snapshot_owned(d: StoreView, id: Seq<char>) -> bool {
    row_has_id(d.downloads, id) || d.lifecycle_quarantines.dom().contains(id) || d.queue_admissions.dom().contains(id)
}

pub open spec fn attempt_fault(d: StoreView, k: Seq<char>) -> bool {
    let a = d.admission_attempts[k];
    ||| !uuid_parses(k)
    ||| !spec_admission_request_valid(a.request)
    ||| snapshot_owned(d, a.request.snapshot.download_id)
    ||| attempt_before_holds_slot(d, k, attempt_slot(a))
}

/// The error reported for a faulty intent: the first of its rules it breaks.
pub open spec fn attempt_error(d: StoreView, k: Seq<char>, e: PumasError) -> bool {
    let a = d.admission_attempts[k];
    let id = a.request.snapshot.download_id;
    if !uuid_parses(k) {
        is_error(e, attempts_field(), "Invalid admission attempt "@ + k + ": "@ + uuid_error_text(k))
    } else if !spec_admission_request_valid(a.request) {
        admission_request_error(a.request, e)
    } else if snapshot_owned(d, id) {
        is_error(e, attempts_field(), "Hidden admission "@ + id + " has another snapshot owner"@)
    } else {
        is_error(e, queue_field(), duplicate_ordinal())
    }
}

/// The error of the first faulty intent by attempt id.
pub open spec fn attempts_error(d: StoreView, e: PumasError) -> bool {
    exists|k: Seq<char>|
        #![trigger d.admission_attempts[k]]
        d.admission_attempts.dom().contains(k) && attempt_fault(d, k) && (forall|k2: Seq<char>|
            #![trigger attempt_fault(d, k2)]
            d.admission_attempts.dom().contains(k2) && seq_lt(k2, k) ==> !attempt_fault(d, k2))
            && attempt_error(d, k, e)
}

proof fn lemma_attempt_entry_ok(d: DownloadStoreData, j: int, i: int)
    requires
        store_wf(d),
        0 <= j < i <= d.admission_attempts@.len(),
        ({
            let v = d.admission_attempts@;
            let a = v[j].value@;
            let id = a.request.snapshot.download_id;
            &&& uuid_parses(v[j].key@)
            &&& spec_admission_request_valid(a.request)
            &&& !row_has_id(d@.downloads, id)
            &&& !d@.lifecycle_quarantines.dom().contains(id)
            &&& !d@.queue_admissions.dom().contains(id)
        }),
        forall|a: int, b: int| 0 <= a < i && 0 <= b < i && a != b ==> #[trigger] aslot(d, a) != #[trigger] aslot(d, b),
    ensures
        !attempt_fault(d@, d.admission_attempts@[j].key@),
{
    let v = d.admission_attempts@;
    lemma_keyed_map_at(v, j);
    let slot = aslot(d, j);
    lemma_attempt_before_holds_slot(d, j, slot);
    if exists|b: int| 0 <= b < j && #[trigger] aslot(d, b) == slot {
        let b = choose|b: int| 0 <= b < j && #[trigger] aslot(d, b) == slot;
        assert(aslot(d, b) != aslot(d, j));
    }
}

/// Admission intents have valid attempts and requests and no other owner.
pub fn check_attempts(d: &DownloadStoreData) -> (r: Result<(), PumasError>)
    requires
        store_wf(*d),
    ensures
        r is Ok <==> attempts_ok(d@) && attempt_slots_distinct(d@),
        r matches Err(e) ==> attempts_error(d@, e),
{
    let v = &d.admission_attempts;
    let mut i: usize = 0;
    while i < v.len()
        invariant
            store_wf(*d),
            v == &d.admission_attempts,
            i <= v@.len(),
            forall|j: int|
                0 <= j < i ==> {
                    let a = #[trigger] v@[j].value@;
                    let id = a.request.snapshot.download_id;
                    &&& uuid_parses(v@[j].key@)
                    &&& spec_admission_request_valid(a.request)
                    &&& !row_has_id(d@.downloads, id)
                    &&& !d@.lifecycle_quarantines.dom().contains(id)
                    &&& !d@.queue_admissions.dom().contains(id)
                },
            forall|a: int, b: int| 0 <= a < i && 0 <= b < i && a != b ==> #[trigger] aslot(*d, a) != #[trigger] aslot(*d, b),
        decreases v.len() - i,
    {
        let ghost kk = v@[i as int].key@;
        proof {
            lemma_keyed_map_at(v@, i as int);
            assert(d@.admission_attempts.dom().contains(v@[i as int].key@));
            assert forall|k2: Seq<char>|
                #[trigger] attempt_fault(d@, k2) && d@.admission_attempts.dom().contains(k2) implies !seq_lt(k2, kk)
            by {
                lemma_sorted_position(v@, i as int, k2);
                let j = index_of_key(v@, k2);
                if j < i {
                    lemma_attempt_entry_ok(*d, j, i as int);
                }
            }
        }
        if let Some(source) = uuid_parse_error(v[i].key.as_str()) {
            let head = framed("Invalid admission attempt ", v[i].key.as_str(), ": ");
            let e = invalid("downloads.admission_attempts", framed(head.as_str(), source.as_str(), ""));
            proof {
                reveal_strlit("");
                assert(attempt_error(d@, kk, e));
            }
            return Err(e);
        }
        match validate_admission_request(&v[i].value.request) {
            Ok(()) => {},
            Err(e) => {
                assert(attempt_error(d@, kk, e));
                return Err(e);
            },
        }
        let id = &v[i].value.request.snapshot.download_id;
        if find_row(&d.downloads, id).is_some() || key_present(&d.lifecycle_quarantines, id)
            || key_present(&d.queue_admissions, id) {
            let e = invalid("downloads.admission_attempts", framed("Hidden admission ", id.as_str(), " has another snapshot owner"));
            assert(snapshot_owned(d@, id@));
            assert(attempt_error(d@, kk, e));
            return Err(e);
        }
        if !attempt_slot_free(d, i) {
            proof {
                let b = choose|b: int| 0 <= b < i && aslot(*d, b) == aslot(*d, i as int);
                lemma_keyed_map_at(v@, b);
                assert(v@[i as int].key@ != v@[b].key@);
                assert(d@.admission_attempts.dom().contains(v@[b].key@));
            }
            let e = slot_err("downloads.queue_admissions");
            proof {
                lemma_attempt_before_holds_slot(*d, i as int, aslot(*d, i as int));
                assert(attempt_fault(d@, kk));
                assert(attempt_error(d@, kk, e));
            }
            return Err(e);
        }
        i = i + 1;
    }
    proof {
        assert forall|a: Seq<char>, b: Seq<char>|
            #[trigger] d@.admission_attempts.dom().contains(a) && #[trigger]
            d@.admission_attempts.dom().contains(b) && a != b implies attempt_slot(d@.admission_attempts[a])
                != attempt_slot(d@.admission_attempts[b]) by {
            lemma_keyed_map_key(v@, a);
            lemma_keyed_map_key(v@, b);
            assert(aslot(*d, index_of_key(v@, a)) != aslot(*d, index_of_key(v@, b)));
        }
        assert forall|k: Seq<char>| #[trigger] d@.admission_attempts.dom().contains(k) implies {
            let a = d@.admission_attempts[k];
            let id = a.request.snapshot.download_id;
            &&& uuid_parses(k)
            &&& spec_admission_request_valid(a.request)
            &&& !row_has_id(d@.downloads, id)
            &&& !d@.lifecycle_quarantines.dom().contains(id)
            &&& !d@.queue_admissions.dom().contains(id)
        } by {
            lemma_keyed_map_key(v@, k);
            assert(v@[index_of_key(v@, k)].key@ == k);
        }
    }
    Ok(())
}

pub open spec fn released_field() -> Seq<char> {
    "downloads.released_queue_admissions"@
}

pub open spec fn released_active_owner(d: StoreView, k: Seq<char>) -> bool {
    d.queue_admissions.dom().contains(k) || row_has_id(d.downloads, k) || attempt_owns_download(
        d.admission_attempts,
        k,
    )
}

/// The destination ordinal of released admission `k` is held by an intent,
/// a queued admission or a released admission sorting before it.
pub open spec fn released_slot_taken(d: StoreView, k: Seq<char>) -> bool {
    let slot = queue_slot(d.released_queue_admissions[k]);
    attempt_holds_slot(d, slot) || queue_holds_slot(d, slot) || released_before_holds_slot(d, k, slot)
}

pub open spec fn released_fault(d: StoreView, k: Seq<char>) -> bool {
    !uuid_parses(d.released_queue_admissions[k].attempt_id) || released_active_owner(d, k) || released_slot_taken(d, k)
}

pub open spec fn released_error(d: StoreView, k: Seq<char>, e: PumasError) -> bool {
    let a = d.released_queue_admissions[k].attempt_id;
    if !uuid_parses(a) {
        is_error(e, released_field(), uuid_error_text(a))
    } else if released_active_owner(d, k) {
        is_error(e, released_field(), "Released admission has an active owner"@)
    } else {
        is_error(e, released_field(), duplicate_ordinal())
    }
}

/// The error of the first faulty released admission by download id.
pub open spec fn released_group_error(d: StoreView, e: PumasError) -> bool {
    exists|k: Seq<char>|
        #![trigger d.released_queue_admissions[k]]
        d.released_queue_admissions.dom().contains(k) && released_fault(d, k) && (forall|k2: Seq<char>|
            #![trigger released_fault(d, k2)]
            d.released_queue_admissions.dom().contains(k2) && seq_lt(k2, k) ==> !released_fault(d, k2))
            && released_error(d, k, e)
}

/// Released admission `j` breaks no rule when the loop's facts hold of it.
proof fn lemma_released_entry_ok(d: DownloadStoreData, j: int, i: int)
    requires
        store_wf(d),
        0 <= j < i <= d.released_queue_admissions@.len(),
        ({
            let v = d.released_queue_admissions@;
            let k = v[j].key@;
            &&& uuid_parses(v[j].value.attempt_id@)
            &&& !d@.queue_admissions.dom().contains(k)
            &&& !row_has_id(d@.downloads, k)
            &&& !attempt_owns_download(d@.admission_attempts, k)
        }),
        forall|a: int, b: int| 0 <= a < i && 0 <= b < i && a != b ==> #[trigger] rslot(d, a) != #[trigger] rslot(d, b),
        forall|a: int, b: int|
            0 <= a < d.admission_attempts@.len() && 0 <= b < i ==> #[trigger] aslot(d, a) != #[trigger] rslot(d, b),
        forall|a: int, b: int|
            0 <= a < d.queue_admissions@.len() && 0 <= b < i ==> #[trigger] qslot(d, a) != #[trigger] rslot(d, b),
    ensures
        !released_fault(d@, d.released_queue_admissions@[j].key@),
{
    let v = d.released_queue_admissions@;
    lemma_keyed_map_at(v, j);
    let slot = rslot(d, j);
    lemma_attempt_holds_slot(d, slot);
    lemma_queue_holds_slot(d, slot);
    lemma_released_before_holds_slot(d, j, slot);
    if exists|a: int| 0 <= a < d.admission_attempts@.len() && #[trigger] aslot(d, a) == slot {
        let a = choose|a: int| 0 <= a < d.admission_attempts@.len() && #[trigger] aslot(d, a) == slot;
        assert(aslot(d, a) != rslot(d, j));
    }
    if exists|a: int| 0 <= a < d.queue_admissions@.len() && #[trigger] qslot(d, a) == slot {
        let a = choose|a: int| 0 <= a < d.queue_admissions@.len() && #[trigger] qslot(d, a) == slot;
        assert(qslot(d, a) != rslot(d, j));
    }
    if exists|b: int| 0 <= b < j && #[trigger] rslot(d, b) == slot {
        let b = choose|b: int| 0 <= b < j && #[trigger] rslot(d, b) == slot;
        assert(rslot(d, b) != rslot(d, j));
    }
}

/// Released admissions keep their attempt and have no active owner.
pub fn check_released(d: &DownloadStoreData) -> (r: Result<(), PumasError>)
    requires
        store_wf(*d),
    ensures
        r is Ok <==> released_ok(d@) && released_slots_distinct(d@),
        r matches Err(e) ==> released_group_error(d@, e),
{
    let v = &d.released_queue_admissions;
    let ghost at = d.admission_attempts@;
    let ghost qu = d.queue_admissions@;
    let mut i: usize = 0;
    while i < v.len()
        invariant
            store_wf(*d),
            v == &d.released_queue_admissions,
            at == d.admission_attempts@,
            qu == d.queue_admissions@,
            i <= v@.len(),
            forall|a: int, b: int| 0 <= a < i && 0 <= b < i && a != b ==> #[trigger] rslot(*d, a) != #[trigger] rslot(*d, b),
            forall|a: int, b: int| 0 <= a < at.len() && 0 <= b < i ==> #[trigger] aslot(*d, a) != #[trigger] rslot(*d, b),
            forall|a: int, b: int| 0 <= a < qu.len() && 0 <= b < i ==> #[trigger] qslot(*d, a) != #[trigger] rslot(*d, b),
            forall|j: int|
                #![trigger v@[j]]
                0 <= j < i ==> {
                    let k = v@[j].key@;
                    &&& uuid_parses(v@[j].value.attempt_id@)
                    &&& !d@.queue_admissions.dom().contains(k)
                    &&& !row_has_id(d@.downloads, k)
                    &&& !attempt_owns_download(d@.admission_attempts, k)
                },
        decreases v.len() - i,
    {
        let ghost kk = v@[i as int].key@;
        proof {
            lemma_keyed_map_at(v@, i as int);
            assert(d@.released_queue_admissions.dom().contains(v@[i as int].key@));
            assert forall|k2: Seq<char>|
                #[trigger] released_fault(d@, k2) && d@.released_queue_admissions.dom().contains(k2) implies !seq_lt(
                k2,
                kk,
            ) by {
                lemma_sorted_position(v@, i as int, k2);
                let j = index_of_key(v@, k2);
                if j < i {
                    lemma_released_entry_ok(*d, j, i as int);
                }
            }
        }
        if let Some(source) = uuid_parse_error(v[i].value.attempt_id.as_str()) {
            let e = invalid("downloads.released_queue_admissions", source);
            assert(released_error(d@, kk, e));
            return Err(e);
        }
        let k = &v[i].key;
        if key_present(&d.queue_admissions, k) || find_row(&d.downloads, k).is_some()
            || attempt_owns_download_exec(&d.admission_attempts, k) {
            let e = validation_error("downloads.released_queue_admissions", "Released admission has an active owner");
            assert(released_active_owner(d@, kk));
            assert(released_error(d@, kk, e));
            return Err(e);
        }
        assert(uuid_parses(v@[i as int].value.attempt_id@));
        assert(!d@.queue_admissions.dom().contains(v@[i as int].key@));
        assert(!row_has_id(d@.downloads, v@[i as int].key@));
        assert(!attempt_owns_download(d@.admission_attempts, v@[i as int].key@));
        if !released_slot_free(d, i) {
            proof {
                lemma_keyed_map_at(v@, i as int);
                assert(d@.released_queue_admissions.dom().contains(v@[i as int].key@));
                if exists|a: int| 0 <= a < at.len() && aslot(*d, a) == rslot(*d, i as int) {
                    let a = choose|a: int| 0 <= a < at.len() && aslot(*d, a) == rslot(*d, i as int);
                    lemma_keyed_map_at(at, a);
                    assert(d@.admission_attempts.dom().contains(at[a].key@));
                } else if exists|a: int| 0 <= a < qu.len() && qslot(*d, a) == rslot(*d, i as int) {
                    let a = choose|a: int| 0 <= a < qu.len() && qslot(*d, a) == rslot(*d, i as int);
                    lemma_keyed_map_at(qu, a);
                    assert(d@.queue_admissions.dom().contains(qu[a].key@));
                } else {
                    let b = choose|b: int| 0 <= b < i && rslot(*d, b) == rslot(*d, i as int);
                    lemma_keyed_map_at(v@, b);
                    assert(v@[i as int].key@ != v@[b].key@);
                    assert(d@.released_queue_admissions.dom().contains(v@[b].key@));
                }
            }
            let e = slot_err("downloads.released_queue_admissions");
            proof {
                let slot = rslot(*d, i as int);
                lemma_attempt_holds_slot(*d, slot);
                lemma_queue_holds_slot(*d, slot);
                lemma_released_before_holds_slot(*d, i as int, slot);
                assert(released_slot_taken(d@, kk));
                assert(released_error(d@, kk, e));
            }
            return Err(e);
        }
        i = i + 1;
    }
    proof {
        assert forall|a: Seq<char>, b: Seq<char>|
            #[trigger] d@.released_queue_admissions.dom().contains(a) && #[trigger]
            d@.released_queue_admissions.dom().contains(b) && a != b implies queue_slot(d@.released_queue_admissions[a])
                != queue_slot(d@.released_queue_admissions[b]) by {
            lemma_keyed_map_key(v@, a);
            lemma_keyed_map_key(v@, b);
            assert(rslot(*d, index_of_key(v@, a)) != rslot(*d, index_of_key(v@, b)));
        }
        assert forall|a: Seq<char>, b: Seq<char>|
            #[trigger] d@.admission_attempts.dom().contains(a) && #[trigger]
            d@.released_queue_admissions.dom().contains(b) implies attempt_slot(d@.admission_attempts[a])
                != queue_slot(d@.released_queue_admissions[b]) by {
            lemma_keyed_map_key(at, a);
            lemma_keyed_map_key(v@, b);
            assert(aslot(*d, index_of_key(at, a)) != rslot(*d, index_of_key(v@, b)));
        }
        assert forall|a: Seq<char>, b: Seq<char>|
            #[trigger] d@.queue_admissions.dom().contains(a) && #[trigger]
            d@.released_queue_admissions.dom().contains(b) implies queue_slot(d@.queue_admissions[a])
                != queue_slot(d@.released_queue_admissions[b]) by {
            lemma_keyed_map_key(qu, a);
            lemma_keyed_map_key(v@, b);
            assert(qslot(*d, index_of_key(qu, a)) != rslot(*d, index_of_key(v@, b)));
        }
        assert forall|k: Seq<char>| #[trigger]
            d@.released_queue_admissions.dom().contains(k) implies {
            &&& uuid_parses(d@.released_queue_admissions[k].attempt_id)
            &&& !d@.queue_admissions.dom().contains(k)
            &&& !row_has_id(d@.downloads, k)
            &&& !attempt_owns_download(d@.admission_attempts, k)
        } by {
            lemma_keyed_map_key(v@, k);
            assert(v@[index_of_key(v@, k)].key@ == k);
        }
    }
    Ok(())
}

pub open spec fn quarantines_field() -> Seq<char> {
    "downloads.lifecycle_quarantines"@
}

pub open spec fn quarantine_fault(d: StoreView, k: Seq<char>) -> bool {
    !quarantine_entry_ok(d, k, d.lifecycle_quarantines[k])
}

/// The error reported for a faulty quarantine: the first of its rules it
/// breaks.
pub open spec fn quarantine_error(d: StoreView, k: Seq<char>, e: PumasError) -> bool {
    let q = d.lifecycle_quarantines[k];
    if q.snapshot.download_id != k {
        is_error(e, quarantines_field(), "Lifecycle quarantine key "@ + k + " does not match its snapshot ID"@)
    } else if q.snapshot.status != quarantine_status(q) {
        is_error(
            e,
            quarantines_field(),
            "Lifecycle quarantine "@ + k + " has a status inconsistent with its provenance"@,
        )
    } else if !q.sticky_failure && !(q.disposition == PersistedLifecycleCleanupDisposition::PendingIntent
        || q.disposition == PersistedLifecycleCleanupDisposition::Pending) {
        is_error(
            e,
            quarantines_field(),
            "Clean lifecycle quarantine "@ + k + " cannot carry verified failure cleanup"@,
        )
    } else if row_has_id(d.downloads, k) {
        is_error(e, quarantines_field(), "Lifecycle quarantine "@ + k + " also has an ordinary resumable row"@)
    } else {
        is_error(e, quarantines_field(), "Lifecycle quarantine "@ + k + " conflicts with its authority domain"@)
    }
}

/// The error of the first faulty quarantine by download id.
pub open spec fn quarantines_error(d: StoreView, e: PumasError) -> bool {
    exists|k: Seq<char>|
        #![trigger d.lifecycle_quarantines[k]]
        d.lifecycle_quarantines.dom().contains(k) && quarantine_fault(d, k) && (forall|k2: Seq<char>|
            #![trigger quarantine_fault(d, k2)]
            d.lifecycle_quarantines.dom().contains(k2) && seq_lt(k2, k) ==> !quarantine_fault(d, k2))
            && quarantine_error(d, k, e)
}

/// Quarantines match their keys, provenance, cleanup state and authority;
/// the first faulty one by download id is reported.
pub fn check_quarantines(d: &DownloadStoreData) -> (r: Result<(), PumasError>)
    requires
        store_wf(*d),
    ensures
        r is Ok <==> quarantines_ok(d@),
        r matches Err(e) ==> quarantines_error(d@, e),
{
    let v = &d.lifecycle_quarantines;
    let field = "downloads.lifecycle_quarantines";
    let mut i: usize = 0;
    while i < v.len()
        invariant
            store_wf(*d),
            v == &d.lifecycle_quarantines,
            field@ == "downloads.lifecycle_quarantines"@,
            i <= v@.len(),
            forall|j: int|
                0 <= j < i ==> quarantine_entry_ok(d@, #[trigger] v@[j].key@, v@[j].value@),
        decreases v.len() - i,
    {
        let ghost kk = v@[i as int].key@;
        proof {
            lemma_keyed_map_at(v@, i as int);
            assert(d@.lifecycle_quarantines.dom().contains(kk));
            assert forall|k2: Seq<char>|
                #[trigger] quarantine_fault(d@, k2) && d@.lifecycle_quarantines.dom().contains(k2) implies !seq_lt(
                k2,
                kk,
            ) by {
                lemma_sorted_position(v@, i as int, k2);
                let j = index_of_key(v@, k2);
                if j < i {
                    lemma_keyed_map_at(v@, j);
                    assert(quarantine_entry_ok(d@, v@[j].key@, v@[j].value@));
                }
            }
        }
        let k = &v[i].key;
        let q = &v[i].value;
        if q.snapshot.download_id != *k {
            let e = invalid(field, framed("Lifecycle quarantine key ", k.as_str(), " does not match its snapshot ID"));
            assert(quarantine_error(d@, kk, e));
            return Err(e);
        }
        let expected = if q.sticky_failure {
            DownloadStatus::Error
        } else {
            DownloadStatus::Cancelling
        };
        if q.snapshot.status != expected {
            let e = invalid(
                field,
                framed("Lifecycle quarantine ", k.as_str(), " has a status inconsistent with its provenance"),
            );
            assert(quarantine_error(d@, kk, e));
            return Err(e);
        }
        if !q.sticky_failure && (q.disposition == PersistedLifecycleCleanupDisposition::VerifiedIntent
            || q.disposition == PersistedLifecycleCleanupDisposition::Verified) {
            let e = invalid(
                field,
                framed("Clean lifecycle quarantine ", k.as_str(), " cannot carry verified failure cleanup"),
            );
            assert(quarantine_error(d@, kk, e));
            return Err(e);
        }
        if find_row(&d.downloads, k).is_some() {
            let e = invalid(field, framed("Lifecycle quarantine ", k.as_str(), " also has an ordinary resumable row"));
            assert(quarantine_error(d@, kk, e));
            return Err(e);
        }
        let durable = match crate::keyed::find_key(&d.recovery_revocations, k) {
            Some(j) => d.recovery_revocations[j].value.disposition == PersistedRevocationDisposition::Durable,
            None => false,
        };
        if durable != (q.domain == LifecycleQuarantineDomain::Recovery) {
            let e = invalid(field, framed("Lifecycle quarantine ", k.as_str(), " conflicts with its authority domain"));
            assert(quarantine_error(d@, kk, e));
            return Err(e);
        }
        assert(quarantine_entry_ok(d@, v@[i as int].key@, v@[i as int].value@));
        assert forall|j: int| 0 <= j < i + 1 implies quarantine_entry_ok(d@, #[trigger] v@[j].key@, v@[j].value@) by {}
        i = i + 1;
    }
    proof {
        assert forall|k: Seq<char>| #[trigger]
            d@.lifecycle_quarantines.dom().contains(k) implies quarantine_entry_ok(
            d@,
            k,
            d@.lifecycle_quarantines[k],
        ) by {
            lemma_keyed_map_key(v@, k);
            assert(v@[index_of_key(v@, k)].key@ == k);
        }
    }
    Ok(())
}

pub open spec fn queue_fault(d: StoreView, k: Seq<char>) -> bool {
    let q = d.queue_admissions[k];
    ||| !queue_entry_ok(d, k, q)
    ||| attempt_holds_slot(d, queue_slot(q))
    ||| queue_before_holds_slot(d, k, queue_slot(q))
}

/// The error reported for a faulty queued admission: the first of its
/// rules it breaks.
pub open spec fn queue_error(d: StoreView, k: Seq<char>, e: PumasError) -> bool {
    let q = d.queue_admissions[k];
    if !uuid_parses(q.attempt_id) {
        is_error(
            e,
            queue_field(),
            "Invalid durable admission attempt for "@ + k + ": "@ + uuid_error_text(q.attempt_id),
        )
    } else if !(row_has_id(d.downloads, k) || d.lifecycle_quarantines.dom().contains(k)) {
        is_error(e, queue_field(), "Durable admission "@ + k + " has no full-snapshot owner"@)
    } else if !spec_admission_request_valid(queue_request(d, k, q)) {
        admission_request_error(queue_request(d, k, q), e)
    } else {
        is_error(e, queue_field(), duplicate_ordinal())
    }
}

/// The error of the first faulty queued admission by download id.
pub open spec fn queue_group_error(d: StoreView, e: PumasError) -> bool {
    exists|k: Seq<char>|
        #![trigger d.queue_admissions[k]]
        d.queue_admissions.dom().contains(k) && queue_fault(d, k) && (forall|k2: Seq<char>|
            #![trigger queue_fault(d, k2)]
            d.queue_admissions.dom().contains(k2) && seq_lt(k2, k) ==> !queue_fault(d, k2))
            && queue_error(d, k, e)
}

proof fn lemma_queue_entry_fine(d: DownloadStoreData, j: int, i: int)
    requires
        store_wf(d),
        0 <= j < i <= d.queue_admissions@.len(),
        queue_entry_ok(d@, d.queue_admissions@[j].key@, d.queue_admissions@[j].value@),
        forall|a: int, b: int| 0 <= a < i && 0 <= b < i && a != b ==> #[trigger] qslot(d, a) != #[trigger] qslot(d, b),
        forall|a: int, b: int|
            0 <= a < d.admission_attempts@.len() && 0 <= b < i ==> #[trigger] aslot(d, a) != #[trigger] qslot(d, b),
    ensures
        !queue_fault(d@, d.queue_admissions@[j].key@),
{
    let v = d.queue_admissions@;
    lemma_keyed_map_at(v, j);
    let slot = qslot(d, j);
    lemma_attempt_holds_slot(d, slot);
    lemma_queue_before_holds_slot(d, j, slot);
    if exists|a: int| 0 <= a < d.admission_attempts@.len() && #[trigger] aslot(d, a) == slot {
        let a = choose|a: int| 0 <= a < d.admission_attempts@.len() && #[trigger] aslot(d, a) == slot;
        assert(aslot(d, a) != qslot(d, j));
    }
    if exists|b: int| 0 <= b < j && #[trigger] qslot(d, b) == slot {
        let b = choose|b: int| 0 <= b < j && #[trigger] qslot(d, b) == slot;
        assert(qslot(d, b) != qslot(d, j));
    }
}

/// Queued admissions have valid attempts, a full snapshot owner and a valid
/// promoted request.
pub fn check_queue(d: &DownloadStoreData) -> (r: Result<(), PumasError>)
    requires
        store_wf(*d),
    ensures
        r is Ok <==> queue_ok(d@) && queue_slots_distinct(d@),
        r matches Err(e) ==> queue_group_error(d@, e),
{
    let v = &d.queue_admissions;
    let ghost at = d.admission_attempts@;
    let mut i: usize = 0;
    while i < v.len()
        invariant
            store_wf(*d),
            v == &d.queue_admissions,
            at == d.admission_attempts@,
            i <= v@.len(),
            forall|j: int| 0 <= j < i ==> queue_entry_ok(d@, #[trigger] v@[j].key@, v@[j].value@),
            forall|a: int, b: int| 0 <= a < i && 0 <= b < i && a != b ==> #[trigger] qslot(*d, a) != #[trigger] qslot(*d, b),
            forall|a: int, b: int| 0 <= a < at.len() && 0 <= b < i ==> #[trigger] aslot(*d, a) != #[trigger] qslot(*d, b),
        decreases v.len() - i,
    {
        let ghost kk = v@[i as int].key@;
        proof {
            lemma_keyed_map_at(v@, i as int);
            assert(d@.queue_admissions.dom().contains(v@[i as int].key@));
            assert forall|k2: Seq<char>|
                #[trigger] queue_fault(d@, k2) && d@.queue_admissions.dom().contains(k2) implies !seq_lt(k2, kk) by {
                lemma_sorted_position(v@, i as int, k2);
                let j = index_of_key(v@, k2);
                if j < i {
                    lemma_queue_entry_fine(*d, j, i as int);
                }
            }
        }
        let k = &v[i].key;
        let q = &v[i].value;
        if let Some(source) = uuid_parse_error(q.attempt_id.as_str()) {
            let head = framed("Invalid durable admission attempt for ", k.as_str(), ": ");
            let e = invalid("downloads.queue_admissions", framed(head.as_str(), source.as_str(), ""));
            proof {
                reveal_strlit("");
                assert(queue_error(d@, kk, e));
            }
            return Err(e);
        }
        let snapshot = match find_row(&d.downloads, k) {
            Some(j) => {
                proof {
                    lemma_first_with_id(d@.downloads, k@, j as int);
                }
                d.downloads[j].duplicate()
            },
            None => match crate::keyed::find_key(&d.lifecycle_quarantines, k) {
                Some(j) => d.lifecycle_quarantines[j].value.snapshot.duplicate(),
                None => {
                    let e = invalid("downloads.queue_admissions", framed("Durable admission ", k.as_str(), " has no full-snapshot owner"));
                    assert(queue_error(d@, kk, e));
                    return Err(e);
                },
            },
        };
        let request = DownloadAdmissionRequest {
            snapshot,
            domain: q.domain,
            destination: q.destination.duplicate(),
            requested_payload_files: crate::strings::clone_strings(&q.requested_payload_files),
            execution_files: crate::strings::clone_strings(&q.execution_files),
        };
        assert(request@ == queue_request(d@, k@, q@));
        match validate_admission_request(&request) {
            Ok(()) => {},
            Err(e) => {
                assert(queue_error(d@, kk, e));
                return Err(e);
            },
        }
        if !queue_slot_free(d, i) {
            proof {
                lemma_keyed_map_at(v@, i as int);
                if exists|a: int| 0 <= a < at.len() && aslot(*d, a) == qslot(*d, i as int) {
                    let a = choose|a: int| 0 <= a < at.len() && aslot(*d, a) == qslot(*d, i as int);
                    lemma_keyed_map_at(at, a);
                    assert(d@.admission_attempts.dom().contains(at[a].key@));
                    assert(d@.queue_admissions.dom().contains(v@[i as int].key@));
                } else {
                    let b = choose|b: int| 0 <= b < i && qslot(*d, b) == qslot(*d, i as int);
                    lemma_keyed_map_at(v@, b);
                    assert(v@[i as int].key@ != v@[b].key@);
                    assert(d@.queue_admissions.dom().contains(v@[b].key@));
                    assert(d@.queue_admissions.dom().contains(v@[i as int].key@));
                }
            }
            let e = slot_err("downloads.queue_admissions");
            proof {
                let slot = qslot(*d, i as int);
                lemma_attempt_holds_slot(*d, slot);
                lemma_queue_before_holds_slot(*d, i as int, slot);
                assert(queue_fault(d@, kk));
                assert(queue_error(d@, kk, e));
            }
            return Err(e);
        }
        i = i + 1;
    }
    proof {
        assert forall|a: Seq<char>, b: Seq<char>|
            #[trigger] d@.queue_admissions.dom().contains(a) && #[trigger]
            d@.queue_admissions.dom().contains(b) && a != b implies queue_slot(d@.queue_admissions[a])
                != queue_slot(d@.queue_admissions[b]) by {
            lemma_keyed_map_key(v@, a);
            lemma_keyed_map_key(v@, b);
            assert(qslot(*d, index_of_key(v@, a)) != qslot(*d, index_of_key(v@, b)));
        }
        assert forall|a: Seq<char>, b: Seq<char>|
            #[trigger] d@.admission_attempts.dom().contains(a) && #[trigger]
            d@.queue_admissions.dom().contains(b) implies attempt_slot(d@.admission_attempts[a])
                != queue_slot(d@.queue_admissions[b]) by {
            lemma_keyed_map_key(at, a);
            lemma_keyed_map_key(v@, b);
            assert(aslot(*d, index_of_key(at, a)) != qslot(*d, index_of_key(v@, b)));
        }
        assert forall|k: Seq<char>| #[trigger] d@.queue_admissions.dom().contains(k) implies queue_entry_ok(
            d@,
            k,
            d@.queue_admissions[k],
        ) by {
            lemma_keyed_map_key(v@, k);
            assert(v@[index_of_key(v@, k)].key@ == k);
        }
    }
    Ok(())
}

fn slot_err(field: &str) -> (e: PumasError)
    ensures
        is_error(e, field@, duplicate_ordinal()),
{
    validation_error(field, "Duplicate destination admission ordinal")
}

fn same_slot(
    a: &PersistedDestinationIdentity,
    a_ord: u64,
    b: &PersistedDestinationIdentity,
    b_ord: u64,
) -> (r: bool)
    ensures
        r == ((a@, a_ord) == (b@, b_ord)),
{
    a.same_as(b) && a_ord == b_ord
}

pub open spec fn aslot(d: DownloadStoreData, i: int) -> (DestinationView, u64) {
    attempt_slot(d.admission_attempts@[i].value@)
}

pub open spec fn qslot(d: DownloadStoreData, i: int) -> (DestinationView, u64) {
    queue_slot(d.queue_admissions@[i].value@)
}

pub open spec fn rslot(d: DownloadStoreData, i: int) -> (DestinationView, u64) {
    queue_slot(d.released_queue_admissions@[i].value@)
}

pub open spec fn duplicate_ordinal() -> Seq<char> {
    "Duplicate destination admission ordinal"@
}

/// Some admission intent holds the destination ordinal.
pub open spec fn attempt_holds_slot(d: StoreView, slot: (DestinationView, u64)) -> bool {
    exists|a: Seq<char>|
        #![trigger d.admission_attempts[a]]
        d.admission_attempts.dom().contains(a) && attempt_slot(d.admission_attempts[a]) == slot
}

/// Some intent whose attempt id sorts before `k` holds the destination
/// ordinal.
pub open spec fn attempt_before_holds_slot(d: StoreView, k: Seq<char>, slot: (DestinationView, u64)) -> bool {
    exists|a: Seq<char>|
        #![trigger d.admission_attempts[a]]
        d.admission_attempts.dom().contains(a) && seq_lt(a, k) && attempt_slot(d.admission_attempts[a]) == slot
}

/// Some queued admission holds the destination ordinal.
pub open spec fn queue_holds_slot(d: StoreView, slot: (DestinationView, u64)) -> bool {
    exists|a: Seq<char>|
        #![trigger d.queue_admissions[a]]
        d.queue_admissions.dom().contains(a) && queue_slot(d.queue_admissions[a]) == slot
}

/// Some queued admission whose download id sorts before `k` holds the
/// destination ordinal.
pub open spec fn queue_before_holds_slot(d: StoreView, k: Seq<char>, slot: (DestinationView, u64)) -> bool {
    exists|a: Seq<char>|
        #![trigger d.queue_admissions[a]]
        d.queue_admissions.dom().contains(a) && seq_lt(a, k) && queue_slot(d.queue_admissions[a]) == slot
}

/// Some released admission whose download id sorts before `k` holds the
/// destination ordinal.
pub open spec fn released_before_holds_slot(d: StoreView, k: Seq<char>, slot: (DestinationView, u64)) -> bool {
    exists|a: Seq<char>|
        #![trigger d.released_queue_admissions[a]]
        d.released_queue_admissions.dom().contains(a) && seq_lt(a, k) && queue_slot(
            d.released_queue_admissions[a],
        ) == slot
}

proof fn lemma_attempt_holds_slot(d: DownloadStoreData, slot: (DestinationView, u64))
    requires
        store_wf(d),
    ensures
        attempt_holds_slot(d@, slot) <==> exists|a: int| 0 <= a < d.admission_attempts@.len() && #[trigger] aslot(d, a) == slot,
{
    let v = d.admission_attempts@;
    if attempt_holds_slot(d@, slot) {
        let k = choose|a: Seq<char>|
            #![trigger d@.admission_attempts[a]]
            d@.admission_attempts.dom().contains(a) && attempt_slot(d@.admission_attempts[a]) == slot;
        lemma_keyed_map_key(v, k);
        assert(aslot(d, index_of_key(v, k)) == slot);
    }
    if exists|a: int| 0 <= a < v.len() && #[trigger] aslot(d, a) == slot {
        let a = choose|a: int| 0 <= a < v.len() && #[trigger] aslot(d, a) == slot;
        lemma_keyed_map_at(v, a);
        assert(d@.admission_attempts[v[a].key@] == v[a].value@);
    }
}

proof fn lemma_attempt_before_holds_slot(d: DownloadStoreData, i: int, slot: (DestinationView, u64))
    requires
        store_wf(d),
        0 <= i < d.admission_attempts@.len(),
    ensures
        attempt_before_holds_slot(d@, d.admission_attempts@[i].key@, slot) <==> exists|b: int| 0 <= b < i && #[trigger] aslot(d, b) == slot,
{
    let v = d.admission_attempts@;
    let k = v[i].key@;
    if attempt_before_holds_slot(d@, k, slot) {
        let a = choose|a: Seq<char>|
            #![trigger d@.admission_attempts[a]]
            d@.admission_attempts.dom().contains(a) && seq_lt(a, k) && attempt_slot(d@.admission_attempts[a]) == slot;
        lemma_sorted_position(v, i, a);
        lemma_keyed_map_key(v, a);
        assert(aslot(d, index_of_key(v, a)) == slot);
    }
    if exists|b: int| 0 <= b < i && #[trigger] aslot(d, b) == slot {
        let b = choose|b: int| 0 <= b < i && #[trigger] aslot(d, b) == slot;
        lemma_keyed_map_at(v, b);
        lemma_keyed_map_at(v, i);
        lemma_sorted_position(v, i, v[b].key@);
        assert(d@.admission_attempts[v[b].key@] == v[b].value@);
    }
}

proof fn lemma_queue_holds_slot(d: DownloadStoreData, slot: (DestinationView, u64))
    requires
        store_wf(d),
    ensures
        queue_holds_slot(d@, slot) <==> exists|a: int| 0 <= a < d.queue_admissions@.len() && #[trigger] qslot(d, a) == slot,
{
    let v = d.queue_admissions@;
    if queue_holds_slot(d@, slot) {
        let k = choose|a: Seq<char>|
            #![trigger d@.queue_admissions[a]]
            d@.queue_admissions.dom().contains(a) && queue_slot(d@.queue_admissions[a]) == slot;
        lemma_keyed_map_key(v, k);
        assert(qslot(d, index_of_key(v, k)) == slot);
    }
    if exists|a: int| 0 <= a < v.len() && #[trigger] qslot(d, a) == slot {
        let a = choose|a: int| 0 <= a < v.len() && #[trigger] qslot(d, a) == slot;
        lemma_keyed_map_at(v, a);
        assert(d@.queue_admissions[v[a].key@] == v[a].value@);
    }
}

proof fn lemma_queue_before_holds_slot(d: DownloadStoreData, i: int, slot: (DestinationView, u64))
    requires
        store_wf(d),
        0 <= i < d.queue_admissions@.len(),
    ensures
        queue_before_holds_slot(d@, d.queue_admissions@[i].key@, slot) <==> exists|b: int| 0 <= b < i && #[trigger] qslot(d, b) == slot,
{
    let v = d.queue_admissions@;
    let k = v[i].key@;
    if queue_before_holds_slot(d@, k, slot) {
        let a = choose|a: Seq<char>|
            #![trigger d@.queue_admissions[a]]
            d@.queue_admissions.dom().contains(a) && seq_lt(a, k) && queue_slot(d@.queue_admissions[a]) == slot;
        lemma_sorted_position(v, i, a);
        lemma_keyed_map_key(v, a);
        assert(qslot(d, index_of_key(v, a)) == slot);
    }
    if exists|b: int| 0 <= b < i && #[trigger] qslot(d, b) == slot {
        let b = choose|b: int| 0 <= b < i && #[trigger] qslot(d, b) == slot;
        lemma_keyed_map_at(v, b);
        lemma_sorted_position(v, i, v[b].key@);
        assert(d@.queue_admissions[v[b].key@] == v[b].value@);
    }
}

proof fn lemma_released_before_holds_slot(d: DownloadStoreData, i: int, slot: (DestinationView, u64))
    requires
        store_wf(d),
        0 <= i < d.released_queue_admissions@.len(),
    ensures
        released_before_holds_slot(d@, d.released_queue_admissions@[i].key@, slot) <==> exists|b: int| 0 <= b < i && #[trigger] rslot(d, b) == slot,
{
    let v = d.released_queue_admissions@;
    let k = v[i].key@;
    if released_before_holds_slot(d@, k, slot) {
        let a = choose|a: Seq<char>|
            #![trigger d@.released_queue_admissions[a]]
            d@.released_queue_admissions.dom().contains(a) && seq_lt(a, k) && queue_slot(d@.released_queue_admissions[a]) == slot;
        lemma_sorted_position(v, i, a);
        lemma_keyed_map_key(v, a);
        assert(rslot(d, index_of_key(v, a)) == slot);
    }
    if exists|b: int| 0 <= b < i && #[trigger] rslot(d, b) == slot {
        let b = choose|b: int| 0 <= b < i && #[trigger] rslot(d, b) == slot;
        lemma_keyed_map_at(v, b);
        lemma_sorted_position(v, i, v[b].key@);
        assert(d@.released_queue_admissions[v[b].key@] == v[b].value@);
    }
}

/// No earlier intent holds the destination ordinal of intent `i`.
fn attempt_slot_free(d: &DownloadStoreData, i: usize) -> (r: bool)
    requires
        i < d.admission_attempts@.len(),
    ensures
        r == forall|b: int| 0 <= b < i ==> aslot(*d, b) != aslot(*d, i as int),
{
    let at = &d.admission_attempts;
    let mut j: usize = 0;
    while j < i
        invariant
            at == &d.admission_attempts,
            j <= i < at@.len(),
            forall|b: int| 0 <= b < j ==> aslot(*d, b) != aslot(*d, i as int),
        decreases i - j,
    {
        if same_slot(
            &at[j].value.request.destination,
            at[j].value.position.ordinal,
            &at[i].value.request.destination,
            at[i].value.position.ordinal,
        ) {
            assert(aslot(*d, j as int) == aslot(*d, i as int));
            return false;
        }
        j = j + 1;
    }
    true
}

/// No intent and no earlier queued admission holds the destination ordinal
/// of queued admission `i`.
fn queue_slot_free(d: &DownloadStoreData, i: usize) -> (r: bool)
    requires
        i < d.queue_admissions@.len(),
    ensures
        r == ((forall|a: int| 0 <= a < d.admission_attempts@.len() ==> aslot(*d, a) != qslot(*d, i as int))
            && forall|b: int| 0 <= b < i ==> qslot(*d, b) != qslot(*d, i as int)),
{
    let at = &d.admission_attempts;
    let qu = &d.queue_admissions;
    let mut j: usize = 0;
    while j < at.len()
        invariant
            at == &d.admission_attempts,
            qu == &d.queue_admissions,
            j <= at@.len(),
            i < qu@.len(),
            forall|b: int| 0 <= b < j ==> aslot(*d, b) != qslot(*d, i as int),
        decreases at.len() - j,
    {
        if same_slot(
            &at[j].value.request.destination,
            at[j].value.position.ordinal,
            &qu[i].value.destination,
            qu[i].value.position.ordinal,
        ) {
            assert(aslot(*d, j as int) == qslot(*d, i as int));
            return false;
        }
        j = j + 1;
    }
    let mut j: usize = 0;
    while j < i
        invariant
            qu == &d.queue_admissions,
            j <= i < qu@.len(),
            forall|a: int| 0 <= a < d.admission_attempts@.len() ==> aslot(*d, a) != qslot(*d, i as int),
            forall|b: int| 0 <= b < j ==> qslot(*d, b) != qslot(*d, i as int),
        decreases i - j,
    {
        if same_slot(
            &qu[j].value.destination,
            qu[j].value.position.ordinal,
            &qu[i].value.destination,
            qu[i].value.position.ordinal,
        ) {
            assert(qslot(*d, j as int) == qslot(*d, i as int));
            return false;
        }
        j = j + 1;
    }
    true
}

/// No other admission holds the destination ordinal of released admission
/// `i`, among the intents, the queued and the earlier released ones.
fn released_slot_free(d: &DownloadStoreData, i: usize) -> (r: bool)
    requires
        i < d.released_queue_admissions@.len(),
    ensures
        r == ((forall|a: int| 0 <= a < d.admission_attempts@.len() ==> aslot(*d, a) != rslot(*d, i as int))
            && (forall|a: int| 0 <= a < d.queue_admissions@.len() ==> qslot(*d, a) != rslot(*d, i as int))
            && forall|b: int| 0 <= b < i ==> rslot(*d, b) != rslot(*d, i as int)),
{
    let at = &d.admission_attempts;
    let qu = &d.queue_admissions;
    let re = &d.released_queue_admissions;
    let mut j: usize = 0;
    while j < at.len()
        invariant
            at == &d.admission_attempts,
            re == &d.released_queue_admissions,
            j <= at@.len(),
            i < re@.len(),
            forall|b: int| 0 <= b < j ==> aslot(*d, b) != rslot(*d, i as int),
        decreases at.len() - j,
    {
        if same_slot(
            &at[j].value.request.destination,
            at[j].value.position.ordinal,
            &re[i].value.destination,
            re[i].value.position.ordinal,
        ) {
            assert(aslot(*d, j as int) == rslot(*d, i as int));
            return false;
        }
        j = j + 1;
    }
    let mut j: usize = 0;
    while j < qu.len()
        invariant
            qu == &d.queue_admissions,
            re == &d.released_queue_admissions,
            j <= qu@.len(),
            i < re@.len(),
            forall|a: int| 0 <= a < d.admission_attempts@.len() ==> aslot(*d, a) != rslot(*d, i as int),
            forall|b: int| 0 <= b < j ==> qslot(*d, b) != rslot(*d, i as int),
        decreases qu.len() - j,
    {
        if same_slot(
            &qu[j].value.destination,
            qu[j].value.position.ordinal,
            &re[i].value.destination,
            re[i].value.position.ordinal,
        ) {
            assert(qslot(*d, j as int) == rslot(*d, i as int));
            return false;
        }
        j = j + 1;
    }
    let mut j: usize = 0;
    while j < i
        invariant
            re == &d.released_queue_admissions,
            j <= i < re@.len(),
            forall|a: int| 0 <= a < d.admission_attempts@.len() ==> aslot(*d, a) != rslot(*d, i as int),
            forall|a: int| 0 <= a < d.queue_admissions@.len() ==> qslot(*d, a) != rslot(*d, i as int),
            forall|b: int| 0 <= b < j ==> rslot(*d, b) != rslot(*d, i as int),
        decreases i - j,
    {
        if same_slot(
            &re[j].value.destination,
            re[j].value.position.ordinal,
            &re[i].value.destination,
            re[i].value.position.ordinal,
        ) {
            assert(rslot(*d, j as int) == rslot(*d, i as int));
            return false;
        }
        j = j + 1;
    }
    true
}

/// The destination and ordinal of the identified admission, if any.
pub fn owner_of_exec(d: &DownloadStoreData, did: &String, aid: &String) -> (r: Option<(PersistedDestinationIdentity, u64)>)
    requires
        store_wf(*d),
    ensures
        match r {
            Some((dest, ord)) => owner_of(d@, did@, aid@) == Some((dest@, ord)),
            None => owner_of(d@, did@, aid@) is None,
        },
{
    if let Some(i) = crate::keyed::find_key(&d.released_queue_admissions, did) {
        let q = &d.released_queue_admissions[i].value;
        if q.attempt_id == *aid {
            return Some((q.destination.duplicate(), q.position.ordinal));
        }
    }
    if let Some(i) = crate::keyed::find_key(&d.queue_admissions, did) {
        let q = &d.queue_admissions[i].value;
        if q.attempt_id == *aid {
            return Some((q.destination.duplicate(), q.position.ordinal));
        }
    }
    if let Some(i) = crate::keyed::find_key(&d.admission_attempts, aid) {
        let a = &d.admission_attempts[i].value;
        if a.request.snapshot.download_id == *did {
            return Some((a.request.destination.duplicate(), a.position.ordinal));
        }
    }
    None
}

/// What is wrong with an admission's predecessor: `Some(true)` when it names
/// no admission, `Some(false)` when it names one that is not earlier at the
/// same destination, `None` when nothing is.
fn predecessor_fault(d: &DownloadStoreData, dest: &PersistedDestinationIdentity, pos: &DownloadAdmissionPosition) -> (r:
    Option<bool>)
    requires
        store_wf(*d),
    ensures
        r is None <==> predecessor_ok(d@, dest@, pos@),
        r matches Some(o) ==> o == orphaned(d@, pos@),
{
    match &pos.predecessor {
        None => None,
        Some(p) => match owner_of_exec(d, &p.download_id, &p.admission_attempt_id) {
            None => Some(true),
            Some((pdest, pord)) => {
                if pdest.same_as(dest) && pord < pos.ordinal {
                    None
                } else {
                    Some(false)
                }
            },
        },
    }
}

/// Admission `d1`/`a1` sorts before `d2`/`a2`: by download id, then by
/// attempt id.
pub open spec fn admission_sorts_before(d1: Seq<char>, a1: Seq<char>, d2: Seq<char>, a2: Seq<char>) -> bool {
    seq_lt(d1, d2) || (d1 == d2 && seq_lt(a1, a2))
}

/// The fault of admission `did`/`aid`, kept in place of `kept` when the
/// admission sorts before it by download id, then attempt id.
fn first_fault(kept: Option<(String, String, bool)>, did: &String, aid: &String, orphan: bool) -> (r: Option<
    (String, String, bool),
>)
    ensures
        match kept {
            Some((kd, ka, ko)) if !admission_sorts_before(did@, aid@, kd@, ka@) => r matches Some((rd, ra, ro))
                && rd@ == kd@ && ra@ == ka@ && ro == ko,
            _ => r matches Some((rd, ra, ro)) && rd@ == did@ && ra@ == aid@ && ro == orphan,
        },
{
    match kept {
        None => Some((clone_string(did), clone_string(aid), orphan)),
        Some((kd, ka, ko)) => {
            if str_lt(did.as_str(), kd.as_str()) || (*did == kd && str_lt(aid.as_str(), ka.as_str())) {
                Some((clone_string(did), clone_string(aid), orphan))
            } else {
                Some((kd, ka, ko))
            }
        },
    }
}

/// The predecessor that a position names has no admission at all.
pub open spec fn orphaned(d: StoreView, pos: PositionView) -> bool {
    owner_of(d, pos.predecessor->0.download_id, pos.predecessor->0.admission_attempt_id) is None
}

/// Admission `did`/`aid` is recorded, as an intent, a queued or a released
/// admission, at `dest` and `pos`.
pub open spec fn admission_record(
    d: StoreView,
    did: Seq<char>,
    aid: Seq<char>,
    dest: DestinationView,
    pos: PositionView,
) -> bool {
    ||| d.admission_attempts.dom().contains(aid) && d.admission_attempts[aid].request.snapshot.download_id == did
        && d.admission_attempts[aid].request.destination == dest && d.admission_attempts[aid].position == pos
    ||| d.queue_admissions.dom().contains(did) && d.queue_admissions[did].attempt_id == aid
        && d.queue_admissions[did].destination == dest && d.queue_admissions[did].position == pos
    ||| d.released_queue_admissions.dom().contains(did) && d.released_queue_admissions[did].attempt_id == aid
        && d.released_queue_admissions[did].destination == dest && d.released_queue_admissions[did].position == pos
}

/// Admission `did`/`aid` names a predecessor that is missing (`orphan`) or
/// not an earlier admission at its destination.
pub open spec fn faulty_admission(d: StoreView, did: Seq<char>, aid: Seq<char>, orphan: bool) -> bool {
    exists|dest: DestinationView, pos: PositionView|
        #[trigger] admission_record(d, did, aid, dest, pos) && !predecessor_ok(d, dest, pos) && orphan == orphaned(
            d,
            pos,
        )
}

/// The error of the faulty admission first by download id, then attempt id.
pub open spec fn predecessors_error(d: StoreView, e: PumasError) -> bool {
    exists|did: Seq<char>, aid: Seq<char>, orphan: bool|
        #[trigger] faulty_admission(d, did, aid, orphan) && (forall|
            did2: Seq<char>,
            aid2: Seq<char>,
            dest2: DestinationView,
            pos2: PositionView,
        |
            #[trigger] admission_record(d, did2, aid2, dest2, pos2) && admission_sorts_before(did2, aid2, did, aid)
                ==> predecessor_ok(d, dest2, pos2)) && is_error(
            e,
            queue_field(),
            "Admission "@ + did + "/"@ + aid + if orphan {
                " has an orphan predecessor"@
            } else {
                " has an invalid predecessor"@
            },
        )
}

proof fn lemma_sorts_before_transitive(
    d1: Seq<char>,
    a1: Seq<char>,
    d2: Seq<char>,
    a2: Seq<char>,
    d3: Seq<char>,
    a3: Seq<char>,
)
    requires
        admission_sorts_before(d1, a1, d2, a2),
        admission_sorts_before(d2, a2, d3, a3),
    ensures
        admission_sorts_before(d1, a1, d3, a3),
{
    if seq_lt(d1, d2) && seq_lt(d2, d3) {
        crate::order::lemma_seq_lt_transitive(d1, d2, d3);
    }
    if d1 == d2 && d2 == d3 && seq_lt(a1, a2) && seq_lt(a2, a3) {
        crate::order::lemma_seq_lt_transitive(a1, a2, a3);
    }
}

/// What the scan of the predecessors keeps: the first fault so far, which
/// sorts no later than any faulty admission scanned.
pub open spec fn fault_kept(d: StoreView, fault: Option<(String, String, bool)>) -> bool {
    fault matches Some((fd, fa, fo)) ==> faulty_admission(d, fd@, fa@, fo)
}

pub open spec fn scanned_ok(
    d: StoreView,
    fault: Option<(String, String, bool)>,
    did: Seq<char>,
    aid: Seq<char>,
    dest: DestinationView,
    pos: PositionView,
) -> bool {
    match fault {
        None => predecessor_ok(d, dest, pos),
        Some((fd, fa, _)) => admission_sorts_before(did, aid, fd@, fa@) ==> predecessor_ok(d, dest, pos),
    }
}

/// A new scanned admission keeps the scanned facts of earlier ones.
proof fn lemma_scanned_step(
    d: StoreView,
    old_fault: Option<(String, String, bool)>,
    new_fault: Option<(String, String, bool)>,
    did: Seq<char>,
    aid: Seq<char>,
    dest: DestinationView,
    pos: PositionView,
)
    requires
        scanned_ok(d, old_fault, did, aid, dest, pos),
        old_fault is None ==> new_fault is None || new_fault is Some,
        old_fault is Some ==> new_fault is Some,
        new_fault matches Some((nd, na, _)) ==> match old_fault {
            None => true,
            Some((od, oa, _)) => (nd@ == od@ && na@ == oa@) || admission_sorts_before(nd@, na@, od@, oa@),
        },
        old_fault is None && new_fault is Some ==> predecessor_ok(d, dest, pos),
    ensures
        scanned_ok(d, new_fault, did, aid, dest, pos),
{
    if let (Some((od, oa, _)), Some((nd, na, _))) = (old_fault, new_fault) {
        if admission_sorts_before(did, aid, nd@, na@) && admission_sorts_before(nd@, na@, od@, oa@) {
            lemma_sorts_before_transitive(did, aid, nd@, na@, od@, oa@);
        }
    }
}

/// Every recorded admission was scanned.
proof fn lemma_record_scanned(
    d: DownloadStoreData,
    fault: Option<(String, String, bool)>,
    did: Seq<char>,
    aid: Seq<char>,
    dest: DestinationView,
    pos: PositionView,
)
    requires
        store_wf(d),
        admission_record(d@, did, aid, dest, pos),
        forall|j: int|
            0 <= j < d.admission_attempts@.len() ==> scanned_ok(
                d@,
                fault,
                (#[trigger] d.admission_attempts@[j]).value.request.snapshot.download_id@,
                d.admission_attempts@[j].key@,
                d.admission_attempts@[j].value.request.destination@,
                d.admission_attempts@[j].value.position@,
            ),
        forall|j: int|
            0 <= j < d.queue_admissions@.len() ==> scanned_ok(
                d@,
                fault,
                (#[trigger] d.queue_admissions@[j]).key@,
                d.queue_admissions@[j].value.attempt_id@,
                d.queue_admissions@[j].value.destination@,
                d.queue_admissions@[j].value.position@,
            ),
        forall|j: int|
            0 <= j < d.released_queue_admissions@.len() ==> scanned_ok(
                d@,
                fault,
                (#[trigger] d.released_queue_admissions@[j]).key@,
                d.released_queue_admissions@[j].value.attempt_id@,
                d.released_queue_admissions@[j].value.destination@,
                d.released_queue_admissions@[j].value.position@,
            ),
    ensures
        scanned_ok(d@, fault, did, aid, dest, pos),
{
    let dv = d@;
    if dv.admission_attempts.dom().contains(aid) && dv.admission_attempts[aid].request.snapshot.download_id == did
        && dv.admission_attempts[aid].request.destination == dest && dv.admission_attempts[aid].position == pos {
        lemma_keyed_map_key(d.admission_attempts@, aid);
        let j = index_of_key(d.admission_attempts@, aid);
        assert(d.admission_attempts@[j].value@ == dv.admission_attempts[aid]);
    } else if dv.queue_admissions.dom().contains(did) && dv.queue_admissions[did].attempt_id == aid
        && dv.queue_admissions[did].destination == dest && dv.queue_admissions[did].position == pos {
        lemma_keyed_map_key(d.queue_admissions@, did);
        let j = index_of_key(d.queue_admissions@, did);
        assert(d.queue_admissions@[j].value@ == dv.queue_admissions[did]);
    } else {
        lemma_keyed_map_key(d.released_queue_admissions@, did);
        let j = index_of_key(d.released_queue_admissions@, did);
        assert(d.released_queue_admissions@[j].value@ == dv.released_queue_admissions[did]);
    }
}

/// Scanning one admission keeps what was known of the earlier ones and
/// adds it.
proof fn lemma_scan_one(
    d: StoreView,
    old_fault: Option<(String, String, bool)>,
    new_fault: Option<(String, String, bool)>,
    did: Seq<char>,
    aid: Seq<char>,
    dest: DestinationView,
    pos: PositionView,
    pf: Option<bool>,
)
    requires
        fault_kept(d, old_fault),
        admission_record(d, did, aid, dest, pos),
        pf is None <==> predecessor_ok(d, dest, pos),
        pf matches Some(o) ==> o == orphaned(d, pos),
        pf is None ==> new_fault == old_fault,
        pf matches Some(o) ==> match old_fault {
            Some((kd, ka, ko)) if !admission_sorts_before(did, aid, kd@, ka@) => new_fault matches Some((rd, ra, ro))
                && rd@ == kd@ && ra@ == ka@ && ro == ko,
            _ => new_fault matches Some((rd, ra, ro)) && rd@ == did && ra@ == aid && ro == o,
        },
    ensures
        fault_kept(d, new_fault),
        scanned_ok(d, new_fault, did, aid, dest, pos),
        new_fault matches Some((nd, na, _)) ==> match old_fault {
            None => true,
            Some((od, oa, _)) => (nd@ == od@ && na@ == oa@) || admission_sorts_before(nd@, na@, od@, oa@),
        },
        old_fault is Some ==> new_fault is Some,
{
    crate::order::lemma_seq_lt_irreflexive(did);
    crate::order::lemma_seq_lt_irreflexive(aid);
    if let Some(o) = pf {
        assert(admission_record(d, did, aid, dest, pos));
        assert(faulty_admission(d, did, aid, o));
    }
}

/// Every predecessor names an earlier admission at the same destination.
/// Of several faulty admissions, the one first by download id and then
/// attempt id is reported.
pub fn check_predecessors(d: &DownloadStoreData) -> (r: Result<(), PumasError>)
    requires
        store_wf(*d),
    ensures
        r is Ok <==> predecessors_ok(d@),
        r matches Err(e) ==> predecessors_error(d@, e),
{
    let ghost dv = d@;
    let mut fault: Option<(String, String, bool)> = None;
    let at = &d.admission_attempts;
    let qu = &d.queue_admissions;
    let re = &d.released_queue_admissions;
    let mut i: usize = 0;
    while i < at.len()
        invariant
            store_wf(*d),
            dv == d@,
            at == &d.admission_attempts,
            i <= at@.len(),
            fault_kept(dv, fault),
            forall|j: int|
                0 <= j < i ==> scanned_ok(
                    dv,
                    fault,
                    (#[trigger] at@[j]).value.request.snapshot.download_id@,
                    at@[j].key@,
                    at@[j].value.request.destination@,
                    at@[j].value.position@,
                ),
        decreases at.len() - i,
    {
        let ghost old_fault = fault;
        let a = &at[i].value;
        proof {
            lemma_keyed_map_at(at@, i as int);
        }
        let pf = predecessor_fault(d, &a.request.destination, &a.position);
        if let Some(orphan) = pf {
            fault = first_fault(fault, &a.request.snapshot.download_id, &at[i].key, orphan);
        }
        proof {
            lemma_scan_one(
                dv,
                old_fault,
                fault,
                a.request.snapshot.download_id@,
                at@[i as int].key@,
                a.request.destination@,
                a.position@,
                pf,
            );
            assert forall|j: int| 0 <= j < i + 1 implies scanned_ok(
                dv,
                fault,
                (#[trigger] at@[j]).value.request.snapshot.download_id@,
                at@[j].key@,
                at@[j].value.request.destination@,
                at@[j].value.position@,
            ) by {
                if j < i {
                    lemma_scanned_step(
                        dv,
                        old_fault,
                        fault,
                        at@[j].value.request.snapshot.download_id@,
                        at@[j].key@,
                        at@[j].value.request.destination@,
                        at@[j].value.position@,
                    );
                }
            }
        }
        i = i + 1;
    }
    let mut i: usize = 0;
    while i < qu.len()
        invariant
            store_wf(*d),
            dv == d@,
            at == &d.admission_attempts,
            qu == &d.queue_admissions,
            i <= qu@.len(),
            fault_kept(dv, fault),
            forall|j: int|
                0 <= j < at@.len() ==> scanned_ok(
                    dv,
                    fault,
                    (#[trigger] at@[j]).value.request.snapshot.download_id@,
                    at@[j].key@,
                    at@[j].value.request.destination@,
                    at@[j].value.position@,
                ),
            forall|j: int|
                0 <= j < i ==> scanned_ok(
                    dv,
                    fault,
                    (#[trigger] qu@[j]).key@,
                    qu@[j].value.attempt_id@,
                    qu@[j].value.destination@,
                    qu@[j].value.position@,
                ),
        decreases qu.len() - i,
    {
        let ghost old_fault = fault;
        let q = &qu[i].value;
        proof {
            lemma_keyed_map_at(qu@, i as int);
        }
        let pf = predecessor_fault(d, &q.destination, &q.position);
        if let Some(orphan) = pf {
            fault = first_fault(fault, &qu[i].key, &q.attempt_id, orphan);
        }
        proof {
            lemma_scan_one(dv, old_fault, fault, qu@[i as int].key@, q.attempt_id@, q.destination@, q.position@, pf);
            assert forall|j: int| 0 <= j < at@.len() implies scanned_ok(
                dv,
                fault,
                (#[trigger] at@[j]).value.request.snapshot.download_id@,
                at@[j].key@,
                at@[j].value.request.destination@,
                at@[j].value.position@,
            ) by {
                lemma_scanned_step(
                    dv,
                    old_fault,
                    fault,
                    at@[j].value.request.snapshot.download_id@,
                    at@[j].key@,
                    at@[j].value.request.destination@,
                    at@[j].value.position@,
                );
            }
            assert forall|j: int| 0 <= j < i + 1 implies scanned_ok(
                dv,
                fault,
                (#[trigger] qu@[j]).key@,
                qu@[j].value.attempt_id@,
                qu@[j].value.destination@,
                qu@[j].value.position@,
            ) by {
                if j < i {
                    lemma_scanned_step(
                        dv,
                        old_fault,
                        fault,
                        qu@[j].key@,
                        qu@[j].value.attempt_id@,
                        qu@[j].value.destination@,
                        qu@[j].value.position@,
                    );
                }
            }
        }
        i = i + 1;
    }
    let mut i: usize = 0;
    while i < re.len()
        invariant
            store_wf(*d),
            dv == d@,
            at == &d.admission_attempts,
            qu == &d.queue_admissions,
            re == &d.released_queue_admissions,
            i <= re@.len(),
            fault_kept(dv, fault),
            forall|j: int|
                0 <= j < at@.len() ==> scanned_ok(
                    dv,
                    fault,
                    (#[trigger] at@[j]).value.request.snapshot.download_id@,
                    at@[j].key@,
                    at@[j].value.request.destination@,
                    at@[j].value.position@,
                ),
            forall|j: int|
                0 <= j < qu@.len() ==> scanned_ok(
                    dv,
                    fault,
                    (#[trigger] qu@[j]).key@,
                    qu@[j].value.attempt_id@,
                    qu@[j].value.destination@,
                    qu@[j].value.position@,
                ),
            forall|j: int|
                0 <= j < i ==> scanned_ok(
                    dv,
                    fault,
                    (#[trigger] re@[j]).key@,
                    re@[j].value.attempt_id@,
                    re@[j].value.destination@,
                    re@[j].value.position@,
                ),
        decreases re.len() - i,
    {
        let ghost old_fault = fault;
        let q = &re[i].value;
        proof {
            lemma_keyed_map_at(re@, i as int);
        }
        let pf = predecessor_fault(d, &q.destination, &q.position);
        if let Some(orphan) = pf {
            fault = first_fault(fault, &re[i].key, &q.attempt_id, orphan);
        }
        proof {
            lemma_scan_one(dv, old_fault, fault, re@[i as int].key@, q.attempt_id@, q.destination@, q.position@, pf);
            assert forall|j: int| 0 <= j < at@.len() implies scanned_ok(
                dv,
                fault,
                (#[trigger] at@[j]).value.request.snapshot.download_id@,
                at@[j].key@,
                at@[j].value.request.destination@,
                at@[j].value.position@,
            ) by {
                lemma_scanned_step(
                    dv,
                    old_fault,
                    fault,
                    at@[j].value.request.snapshot.download_id@,
                    at@[j].key@,
                    at@[j].value.request.destination@,
                    at@[j].value.position@,
                );
            }
            assert forall|j: int| 0 <= j < qu@.len() implies scanned_ok(
                dv,
                fault,
                (#[trigger] qu@[j]).key@,
                qu@[j].value.attempt_id@,
                qu@[j].value.destination@,
                qu@[j].value.position@,
            ) by {
                lemma_scanned_step(
                    dv,
                    old_fault,
                    fault,
                    qu@[j].key@,
                    qu@[j].value.attempt_id@,
                    qu@[j].value.destination@,
                    qu@[j].value.position@,
                );
            }
            assert forall|j: int| 0 <= j < i + 1 implies scanned_ok(
                dv,
                fault,
                (#[trigger] re@[j]).key@,
                re@[j].value.attempt_id@,
                re@[j].value.destination@,
                re@[j].value.position@,
            ) by {
                if j < i {
                    lemma_scanned_step(
                        dv,
                        old_fault,
                        fault,
                        re@[j].key@,
                        re@[j].value.attempt_id@,
                        re@[j].value.destination@,
                        re@[j].value.position@,
                    );
                }
            }
        }
        i = i + 1;
    }
    if let Some((did, aid, orphan)) = fault {
        let head = framed("Admission ", did.as_str(), "/");
        let tail = if orphan {
            " has an orphan predecessor"
        } else {
            " has an invalid predecessor"
        };
        let e = invalid("downloads.queue_admissions", framed(head.as_str(), aid.as_str(), tail));
        proof {
            let (dest, pos) = choose|dest: DestinationView, pos: PositionView|
                #[trigger] admission_record(dv, did@, aid@, dest, pos) && !predecessor_ok(dv, dest, pos) && orphan
                    == orphaned(dv, pos);
            lemma_record_scanned(*d, fault, did@, aid@, dest, pos);
            assert forall|did2: Seq<char>, aid2: Seq<char>, dest2: DestinationView, pos2: PositionView|
                #[trigger] admission_record(dv, did2, aid2, dest2, pos2) && admission_sorts_before(did2, aid2, did@, aid@)
                    implies predecessor_ok(dv, dest2, pos2) by {
                lemma_record_scanned(*d, fault, did2, aid2, dest2, pos2);
            }
            assert(faulty_admission(dv, did@, aid@, orphan));
            assert(predecessors_error(dv, e));
        }
        return Err(e);
    }
    proof {
        assert forall|k: Seq<char>| #[trigger] d@.admission_attempts.dom().contains(k) implies predecessor_ok(
            d@, d@.admission_attempts[k].request.destination, d@.admission_attempts[k].position) by {
            lemma_keyed_map_key(at@, k);
            assert(at@[index_of_key(at@, k)].key@ == k);
        }
        assert forall|k: Seq<char>| #[trigger] d@.queue_admissions.dom().contains(k) implies predecessor_ok(
            d@, d@.queue_admissions[k].destination, d@.queue_admissions[k].position) by {
            lemma_keyed_map_key(qu@, k);
            assert(qu@[index_of_key(qu@, k)].key@ == k);
        }
        assert forall|k: Seq<char>| #[trigger] d@.released_queue_admissions.dom().contains(k) implies predecessor_ok(
            d@, d@.released_queue_admissions[k].destination, d@.released_queue_admissions[k].position) by {
            lemma_keyed_map_key(re@, k);
            assert(re@[index_of_key(re@, k)].key@ == k);
        }
    }
    Ok(())
}

fn is_inactive_exec(s: DownloadStatus) -> (r: bool)
    ensures
        r == is_inactive(s),
{
    s == DownloadStatus::Paused || s == DownloadStatus::Error
}

/// Some queued admission or intent is at the destination.
pub open spec fn destination_queued(d: StoreView, dest: DestinationView) -> bool {
    ||| exists|k: Seq<char>| #[trigger] d.queue_admissions.dom().contains(k) && d.queue_admissions[k].destination == dest
    ||| exists|k: Seq<char>| #[trigger] d.admission_attempts.dom().contains(k) && d.admission_attempts[k].request.destination
        == dest
}

fn destination_queued_exec(d: &DownloadStoreData, dest: &PersistedDestinationIdentity) -> (r: bool)
    requires
        store_wf(*d),
    ensures
        r == destination_queued(d@, dest@),
{
    let qu = &d.queue_admissions;
    let mut j: usize = 0;
    while j < qu.len()
        invariant
            store_wf(*d),
            qu == &d.queue_admissions,
            j <= qu@.len(),
            forall|k: int| 0 <= k < j ==> (#[trigger] qu@[k]).value.destination@ != dest@,
        decreases qu.len() - j,
    {
        if qu[j].value.destination.same_as(dest) {
            proof {
                lemma_keyed_map_at(qu@, j as int);
                assert(d@.queue_admissions.dom().contains(qu@[j as int].key@));
            }
            return true;
        }
        j = j + 1;
    }
    let at = &d.admission_attempts;
    let mut j: usize = 0;
    while j < at.len()
        invariant
            store_wf(*d),
            at == &d.admission_attempts,
            qu == &d.queue_admissions,
            j <= at@.len(),
            forall|k: int| 0 <= k < qu@.len() ==> (#[trigger] qu@[k]).value.destination@ != dest@,
            forall|k: int| 0 <= k < j ==> (#[trigger] at@[k]).value.request.destination@ != dest@,
        decreases at.len() - j,
    {
        if at[j].value.request.destination.same_as(dest) {
            proof {
                lemma_keyed_map_at(at@, j as int);
                assert(d@.admission_attempts.dom().contains(at@[j as int].key@));
            }
            return true;
        }
        j = j + 1;
    }
    proof {
        assert forall|k: Seq<char>| #[trigger] d@.queue_admissions.dom().contains(k) implies
            d@.queue_admissions[k].destination != dest@ by {
            lemma_keyed_map_key(qu@, k);
            assert(qu@[index_of_key(qu@, k)].key@ == k);
        }
        assert forall|k: Seq<char>| #[trigger] d@.admission_attempts.dom().contains(k) implies
            d@.admission_attempts[k].request.destination != dest@ by {
            lemma_keyed_map_key(at@, k);
            assert(at@[index_of_key(at@, k)].key@ == k);
        }
    }
    false
}

/// An earlier relocation of the list has this source or target.
fn destination_taken_earlier(d: &DownloadStoreData, i: usize, dest: &PersistedDestinationIdentity) -> (r: bool)
    requires
        i <= d.pending_relocations@.len(),
    ensures
        r == exists|j: int|
            0 <= j < i && ((#[trigger] d.pending_relocations@[j]).value@.request.source == dest@
                || d.pending_relocations@[j].value@.request.target == dest@),
{
    let v = &d.pending_relocations;
    let mut j: usize = 0;
    while j < i
        invariant
            v == &d.pending_relocations,
            j <= i <= v@.len(),
            forall|k: int|
                0 <= k < j ==> (#[trigger] v@[k]).value@.request.source != dest@ && v@[k].value@.request.target != dest@,
        decreases i - j,
    {
        if v[j].value.request.source.same_as(dest) || v[j].value.request.target.same_as(dest) {
            assert(v@[j as int].value@.request.source == dest@ || v@[j as int].value@.request.target == dest@);
            return true;
        }
        j = j + 1;
    }
    false
}

/// An earlier relocation of the list uses this attempt.
fn attempt_taken_earlier(d: &DownloadStoreData, i: usize, attempt_id: &String) -> (r: bool)
    requires
        i <= d.pending_relocations@.len(),
    ensures
        r == exists|j: int| 0 <= j < i && (#[trigger] d.pending_relocations@[j]).value@.attempt_id == attempt_id@,
{
    let v = &d.pending_relocations;
    let mut j: usize = 0;
    while j < i
        invariant
            v == &d.pending_relocations,
            j <= i <= v@.len(),
            forall|k: int| 0 <= k < j ==> (#[trigger] v@[k]).value@.attempt_id != attempt_id@,
        decreases i - j,
    {
        if v[j].value.attempt_id == *attempt_id {
            assert(v@[j as int].value@.attempt_id == attempt_id@);
            return true;
        }
        j = j + 1;
    }
    false
}

/// The relocations before the `i`-th are disjoint from it.
pub open spec fn disjoint_from_earlier(d: DownloadStoreData, i: int) -> bool {
    forall|j: int| 0 <= j < i ==> {
        let ra = d.pending_relocations@[i].value@;
        let rb = (#[trigger] d.pending_relocations@[j]).value@;
        &&& ra.attempt_id != rb.attempt_id
        &&& ra.request.source != rb.request.source
        &&& ra.request.source != rb.request.target
        &&& ra.request.target != rb.request.source
        &&& ra.request.target != rb.request.target
    }
}

pub open spec fn relocations_field() -> Seq<char> {
    "downloads.pending_relocations"@
}

/// A relocation whose download id sorts before `id` uses the attempt.
pub open spec fn relocation_attempt_before(d: StoreView, id: Seq<char>, a: Seq<char>) -> bool {
    exists|k: Seq<char>|
        #![trigger d.pending_relocations[k]]
        d.pending_relocations.dom().contains(k) && seq_lt(k, id) && d.pending_relocations[k].attempt_id == a
}

/// A relocation whose download id sorts before `id` has the destination as
/// its source or target.
pub open spec fn relocation_dest_before(d: StoreView, id: Seq<char>, dest: DestinationView) -> bool {
    exists|k: Seq<char>|
        #![trigger d.pending_relocations[k]]
        d.pending_relocations.dom().contains(k) && seq_lt(k, id) && (d.pending_relocations[k].request.source == dest
            || d.pending_relocations[k].request.target == dest)
}

/// An admission record already owns the attempt.
pub open spec fn attempt_owned(d: StoreView, a: Seq<char>) -> bool {
    d.admission_attempts.dom().contains(a) || queue_uses_attempt(d.queue_admissions, a) || queue_uses_attempt(
        d.released_queue_admissions,
        a,
    )
}

/// Download `id` has an inactive legacy row and no other record.
pub open spec fn exclusive_inactive_row(d: StoreView, id: Seq<char>) -> bool {
    &&& exists|i: int|
        0 <= i < d.downloads.len() && #[trigger] d.downloads[i].download_id == id && is_inactive(d.downloads[i].status)
    &&& !d.queue_admissions.dom().contains(id)
    &&& !d.released_queue_admissions.dom().contains(id)
    &&& !d.recovery_revocations.dom().contains(id)
    &&& !d.lifecycle_quarantines.dom().contains(id)
    &&& !attempt_owns_download(d.admission_attempts, id)
}

/// No other row and no quarantine uses the source row's directory or the
/// target directory.
pub open spec fn legacy_dirs_free(d: StoreView, id: Seq<char>, target_dir: Seq<char>) -> bool {
    let source = d.downloads[first_with_id(d.downloads, id)];
    &&& forall|j: int|
        0 <= j < d.downloads.len() && #[trigger] d.downloads[j].download_id != id ==> d.downloads[j].dest_dir
            != source.dest_dir && d.downloads[j].dest_dir != target_dir
    &&& forall|k: Seq<char>| #[trigger]
        d.lifecycle_quarantines.dom().contains(k) ==> d.lifecycle_quarantines[k].snapshot.dest_dir != source.dest_dir
            && d.lifecycle_quarantines[k].snapshot.dest_dir != target_dir
}

/// The relocation of `id` breaks a rule, or conflicts with one sorting
/// before it.
pub open spec fn relocation_fault(d: StoreView, id: Seq<char>) -> bool {
    let rel = d.pending_relocations[id];
    ||| !relocation_entry_ok(d, id, rel)
    ||| relocation_attempt_before(d, id, rel.attempt_id)
    ||| relocation_dest_before(d, id, rel.request.source)
    ||| relocation_dest_before(d, id, rel.request.target)
}

/// The message reported for a faulty relocation: the first of its rules it
/// breaks.
pub open spec fn relocation_message(d: StoreView, id: Seq<char>) -> Seq<char> {
    let rel = d.pending_relocations[id];
    if !spec_relocation_request_valid(rel.request) {
        "Relocation requires distinct destinations under the same root"@
    } else if !uuid_parses(rel.attempt_id) {
        "Invalid relocation attempt"@
    } else if relocation_attempt_before(d, id, rel.attempt_id) || attempt_owned(d, rel.attempt_id) {
        "Relocation attempt has another owner"@
    } else if !exclusive_inactive_row(d, id) {
        "Pending relocation lacks an exclusive inactive legacy row"@
    } else if !legacy_dirs_free(d, id, rel.request.target_dir) {
        "Relocation source or target has another legacy owner"@
    } else if relocation_dest_before(d, id, rel.request.source) {
        "Pending relocations overlap destinations"@
    } else if destination_queued(d, rel.request.source) {
        "Relocation destination has a queued admission owner"@
    } else if relocation_dest_before(d, id, rel.request.target) {
        "Pending relocations overlap destinations"@
    } else {
        "Relocation destination has a queued admission owner"@
    }
}

/// The error of the first faulty relocation by download id.
pub open spec fn relocations_error(d: StoreView, e: PumasError) -> bool {
    exists|k: Seq<char>|
        #![trigger d.pending_relocations[k]]
        d.pending_relocations.dom().contains(k) && relocation_fault(d, k) && (forall|k2: Seq<char>|
            #![trigger relocation_fault(d, k2)]
            d.pending_relocations.dom().contains(k2) && seq_lt(k2, k) ==> !relocation_fault(d, k2))
            && is_error(e, relocations_field(), relocation_message(d, k))
}

proof fn lemma_relocation_before(d: DownloadStoreData, i: int, a: Seq<char>, dest: DestinationView)
    requires
        store_wf(d),
        0 <= i < d.pending_relocations@.len(),
    ensures
        relocation_attempt_before(d@, d.pending_relocations@[i].key@, a) <==> exists|j: int|
            0 <= j < i && (#[trigger] d.pending_relocations@[j]).value@.attempt_id == a,
        relocation_dest_before(d@, d.pending_relocations@[i].key@, dest) <==> exists|j: int|
            0 <= j < i && ((#[trigger] d.pending_relocations@[j]).value@.request.source == dest
                || d.pending_relocations@[j].value@.request.target == dest),
{
    let v = d.pending_relocations@;
    let id = v[i].key@;
    if relocation_attempt_before(d@, id, a) {
        let k = choose|k: Seq<char>|
            #![trigger d@.pending_relocations[k]]
            d@.pending_relocations.dom().contains(k) && seq_lt(k, id) && d@.pending_relocations[k].attempt_id == a;
        lemma_sorted_position(v, i, k);
        lemma_keyed_map_key(v, k);
        assert(v[index_of_key(v, k)].value@.attempt_id == a);
    }
    if exists|j: int| 0 <= j < i && (#[trigger] v[j]).value@.attempt_id == a {
        let j = choose|j: int| 0 <= j < i && (#[trigger] v[j]).value@.attempt_id == a;
        lemma_keyed_map_at(v, j);
        lemma_sorted_position(v, i, v[j].key@);
        assert(d@.pending_relocations[v[j].key@] == v[j].value@);
    }
    if relocation_dest_before(d@, id, dest) {
        let k = choose|k: Seq<char>|
            #![trigger d@.pending_relocations[k]]
            d@.pending_relocations.dom().contains(k) && seq_lt(k, id) && (d@.pending_relocations[k].request.source
                == dest || d@.pending_relocations[k].request.target == dest);
        lemma_sorted_position(v, i, k);
        lemma_keyed_map_key(v, k);
        assert(v[index_of_key(v, k)].value@ == d@.pending_relocations[k]);
    }
    if exists|j: int|
        0 <= j < i && ((#[trigger] v[j]).value@.request.source == dest || v[j].value@.request.target == dest) {
        let j = choose|j: int|
            0 <= j < i && ((#[trigger] v[j]).value@.request.source == dest || v[j].value@.request.target == dest);
        lemma_keyed_map_at(v, j);
        lemma_sorted_position(v, i, v[j].key@);
        assert(d@.pending_relocations[v[j].key@] == v[j].value@);
    }
}

/// One pending relocation owns an inactive legacy row and both destinations.
#[verifier::loop_isolation(false)]
pub fn check_relocation_entry(d: &DownloadStoreData, i: usize) -> (r: Result<(), PumasError>)
    requires
        store_wf(*d),
        i < d.pending_relocations@.len(),
    ensures
        r is Ok <==> relocation_entry_ok(
            d@,
            d.pending_relocations@[i as int].key@,
            d.pending_relocations@[i as int].value@,
        ) && disjoint_from_earlier(*d, i as int),
        r matches Err(e) ==> is_error(e, relocations_field(), relocation_message(d@, d.pending_relocations@[i as int].key@)),
{
    let id = &d.pending_relocations[i].key;
    let rel = &d.pending_relocations[i].value;
    let ghost dv = d@.downloads;
    let ghost kid = id@;
    proof {
        lemma_keyed_map_at(d.pending_relocations@, i as int);
        assert(d@.pending_relocations[kid] == rel@);
        lemma_relocation_before(*d, i as int, rel@.attempt_id, rel@.request.source);
        lemma_relocation_before(*d, i as int, rel@.attempt_id, rel@.request.target);
    }
    match validate_relocation_request(&rel.request) {
        Ok(()) => {},
        Err(e) => {
            return Err(e);
        },
    }
    if !uuid_is_valid(rel.attempt_id.as_str()) {
        return Err(relocation_error("Invalid relocation attempt"));
    }
    if attempt_taken_earlier(d, i, &rel.attempt_id) || key_present(&d.admission_attempts, &rel.attempt_id)
        || queue_uses_attempt_exec(&d.queue_admissions, &rel.attempt_id) || queue_uses_attempt_exec(
        &d.released_queue_admissions,
        &rel.attempt_id,
    ) {
        return Err(relocation_error("Relocation attempt has another owner"));
    }
    let ds = &d.downloads;
    let mut found = false;
    let mut j: usize = 0;
    while j < ds.len()
        invariant
            ds == &d.downloads,
            dv == d@.downloads,
            j <= ds@.len(),
            !found ==> forall|k: int| 0 <= k < j ==> !(#[trigger] dv[k].download_id == id@ && is_inactive(dv[k].status)),
            found ==> exists|k: int| 0 <= k < dv.len() && #[trigger] dv[k].download_id == id@ && is_inactive(dv[k].status),
        decreases ds.len() - j,
    {
        if ds[j].download_id == *id && is_inactive_exec(ds[j].status) {
            assert(dv[j as int].download_id == id@);
            found = true;
        }
        j = j + 1;
    }
    if !found || key_present(&d.queue_admissions, id) || key_present(
        &d.released_queue_admissions,
        id,
    ) || key_present(&d.recovery_revocations, id) || key_present(&d.lifecycle_quarantines, id)
        || attempt_owns_download_exec(&d.admission_attempts, id) {
        return Err(relocation_error("Pending relocation lacks an exclusive inactive legacy row"));
    }
    let src_index = match find_row(ds, id) {
        Some(k) => k,
        None => {
            return Err(relocation_error("Pending relocation lacks an exclusive inactive legacy row"));
        },
    };
    proof {
        lemma_first_with_id(dv, id@, src_index as int);
    }
    let source_dir = &ds[src_index].dest_dir;
    let target_dir = &rel.request.target_dir;
    let mut j: usize = 0;
    while j < ds.len()
        invariant
            ds == &d.downloads,
            dv == d@.downloads,
            j <= ds@.len(),
            source_dir@ == dv[first_with_id(dv, id@)].dest_dir,
            forall|k: int|
                0 <= k < j && #[trigger] dv[k].download_id != id@ ==> dv[k].dest_dir != source_dir@
                    && dv[k].dest_dir != target_dir@,
        decreases ds.len() - j,
    {
        if ds[j].download_id != *id && (ds[j].dest_dir == *source_dir || ds[j].dest_dir == *target_dir) {
            assert(dv[j as int].download_id != id@);
            assert(dv[j as int].dest_dir == ds@[j as int].dest_dir@);
            proof {
                assert(!legacy_dirs_free(d@, kid, rel@.request.target_dir));
            }
            return Err(relocation_error("Relocation source or target has another legacy owner"));
        }
        j = j + 1;
    }
    let qs = &d.lifecycle_quarantines;
    let mut j: usize = 0;
    while j < qs.len()
        invariant
            store_wf(*d),
            qs == &d.lifecycle_quarantines,
            j <= qs@.len(),
            forall|k: int|
                0 <= k < j ==> (#[trigger] qs@[k]).value.snapshot.dest_dir@ != source_dir@ && qs@[k].value.snapshot.dest_dir@ != target_dir@,
        decreases qs.len() - j,
    {
        if qs[j].value.snapshot.dest_dir == *source_dir || qs[j].value.snapshot.dest_dir == *target_dir {
            proof {
                lemma_keyed_map_at(qs@, j as int);
                assert(d@.lifecycle_quarantines.dom().contains(qs@[j as int].key@));
                assert(!legacy_dirs_free(d@, kid, rel@.request.target_dir));
            }
            return Err(relocation_error("Relocation source or target has another legacy owner"));
        }
        j = j + 1;
    }
    proof {
        assert forall|k: Seq<char>| #[trigger] d@.lifecycle_quarantines.dom().contains(k) implies
            d@.lifecycle_quarantines[k].snapshot.dest_dir != source_dir@
            && d@.lifecycle_quarantines[k].snapshot.dest_dir != target_dir@ by {
            lemma_keyed_map_key(qs@, k);
            assert(qs@[index_of_key(qs@, k)].key@ == k);
        }
        assert(legacy_dirs_free(d@, kid, rel@.request.target_dir));
    }
    if destination_taken_earlier(d, i, &rel.request.source) {
        return Err(relocation_error("Pending relocations overlap destinations"));
    }
    if destination_queued_exec(d, &rel.request.source) {
        return Err(relocation_error("Relocation destination has a queued admission owner"));
    }
    if destination_taken_earlier(d, i, &rel.request.target) {
        return Err(relocation_error("Pending relocations overlap destinations"));
    }
    if destination_queued_exec(d, &rel.request.target) {
        return Err(relocation_error("Relocation destination has a queued admission owner"));
    }
    proof {
        assert forall|k: Seq<char>| #[trigger] d@.lifecycle_quarantines.dom().contains(k) implies
            d@.lifecycle_quarantines[k].snapshot.dest_dir != source_dir@
            && d@.lifecycle_quarantines[k].snapshot.dest_dir != target_dir@ by {
            lemma_keyed_map_key(qs@, k);
            assert(qs@[index_of_key(qs@, k)].key@ == k);
        }
        lemma_keyed_map_at(d.pending_relocations@, i as int);
    }
    Ok(())
}

/// Every pending relocation is valid, and relocations are pairwise disjoint.
/// The `i`-th relocation is disjoint from the earlier ones exactly when
/// no relocation sorting before it shares its attempt or a destination.
proof fn lemma_disjoint_from_earlier(d: DownloadStoreData, i: int)
    requires
        store_wf(d),
        0 <= i < d.pending_relocations@.len(),
    ensures
        ({
            let v = d.pending_relocations@;
            let id = v[i].key@;
            let rel = v[i].value@;
            disjoint_from_earlier(d, i) <==> !relocation_attempt_before(d@, id, rel.attempt_id)
                && !relocation_dest_before(d@, id, rel.request.source) && !relocation_dest_before(
                d@,
                id,
                rel.request.target,
            )
        }),
{
    let v = d.pending_relocations@;
    let rel = v[i].value@;
    lemma_relocation_before(d, i, rel.attempt_id, rel.request.source);
    lemma_relocation_before(d, i, rel.attempt_id, rel.request.target);
    if !disjoint_from_earlier(d, i) {
        let j = choose|j: int| 0 <= j < i && !{
            let ra = v[i].value@;
            let rb = (#[trigger] d.pending_relocations@[j]).value@;
            &&& ra.attempt_id != rb.attempt_id
            &&& ra.request.source != rb.request.source
            &&& ra.request.source != rb.request.target
            &&& ra.request.target != rb.request.source
            &&& ra.request.target != rb.request.target
        };
        assert(v[j] == d.pending_relocations@[j]);
    }
}

/// A relocation before the `i`-th is not faulty when the scan's facts hold.
proof fn lemma_relocation_entry_fine(d: DownloadStoreData, j: int, i: int)
    requires
        store_wf(d),
        0 <= j < i <= d.pending_relocations@.len(),
        relocation_entry_ok(d@, d.pending_relocations@[j].key@, d.pending_relocations@[j].value@),
        forall|a: int, b: int| 0 <= a < i && 0 <= b < i && a != b ==> {
            let ra = (#[trigger] d.pending_relocations@[a]).value@;
            let rb = (#[trigger] d.pending_relocations@[b]).value@;
            &&& ra.attempt_id != rb.attempt_id
            &&& ra.request.source != rb.request.source
            &&& ra.request.source != rb.request.target
            &&& ra.request.target != rb.request.source
            &&& ra.request.target != rb.request.target
        },
    ensures
        !relocation_fault(d@, d.pending_relocations@[j].key@),
{
    let v = d.pending_relocations@;
    lemma_keyed_map_at(v, j);
    lemma_disjoint_from_earlier(d, j);
    assert forall|b: int| 0 <= b < j implies {
        let ra = v[j].value@;
        let rb = (#[trigger] d.pending_relocations@[b]).value@;
        &&& ra.attempt_id != rb.attempt_id
        &&& ra.request.source != rb.request.source
        &&& ra.request.source != rb.request.target
        &&& ra.request.target != rb.request.source
        &&& ra.request.target != rb.request.target
    } by {
        assert(v[b] == d.pending_relocations@[b]);
    }
    assert(disjoint_from_earlier(d, j));
}

pub fn check_relocations(d: &DownloadStoreData) -> (r: Result<(), PumasError>)
    requires
        store_wf(*d),
    ensures
        r is Ok <==> relocations_ok(d@),
        r matches Err(e) ==> relocations_error(d@, e),
{
    let v = &d.pending_relocations;
    let mut i: usize = 0;
    while i < v.len()
        invariant
            store_wf(*d),
            v == &d.pending_relocations,
            i <= v@.len(),
            forall|j: int| 0 <= j < i ==> relocation_entry_ok(d@, (#[trigger] v@[j]).key@, v@[j].value@),
            forall|a: int, b: int| 0 <= a < i && 0 <= b < i && a != b ==> {
                let ra = (#[trigger] v@[a]).value@;
                let rb = (#[trigger] v@[b]).value@;
                &&& ra.attempt_id != rb.attempt_id
                &&& ra.request.source != rb.request.source
                &&& ra.request.source != rb.request.target
                &&& ra.request.target != rb.request.source
                &&& ra.request.target != rb.request.target
            },
        decreases v.len() - i,
    {
        match check_relocation_entry(d, i) {
            Ok(()) => {},
            Err(e) => {
                proof {
                    lemma_keyed_map_at(v@, i as int);
                    assert(d@.pending_relocations.dom().contains(v@[i as int].key@));
                    if !disjoint_from_earlier(*d, i as int) {
                        let j = choose|j: int| 0 <= j < i && !{
                            let ra = v@[i as int].value@;
                            let rb = (#[trigger] v@[j]).value@;
                            &&& ra.attempt_id != rb.attempt_id
                            &&& ra.request.source != rb.request.source
                            &&& ra.request.source != rb.request.target
                            &&& ra.request.target != rb.request.source
                            &&& ra.request.target != rb.request.target
                        };
                        lemma_keyed_map_at(v@, j);
                        assert(v@[i as int].key@ != v@[j].key@);
                        assert(d@.pending_relocations.dom().contains(v@[j].key@));
                    }
                    let kk = v@[i as int].key@;
                    lemma_disjoint_from_earlier(*d, i as int);
                    assert(relocation_fault(d@, kk));
                    assert forall|k2: Seq<char>|
                        #[trigger] relocation_fault(d@, k2) && d@.pending_relocations.dom().contains(k2) implies !seq_lt(
                        k2,
                        kk,
                    ) by {
                        lemma_sorted_position(v@, i as int, k2);
                        let j = index_of_key(v@, k2);
                        if j < i {
                            lemma_relocation_entry_fine(*d, j, i as int);
                        }
                    }
                    assert(relocations_error(d@, e));
                }
                return Err(e);
            },
        }
        proof {
            assert forall|a: int, b: int| 0 <= a < i + 1 && 0 <= b < i + 1 && a != b implies {
                let ra = (#[trigger] v@[a]).value@;
                let rb = (#[trigger] v@[b]).value@;
                &&& ra.attempt_id != rb.attempt_id
                &&& ra.request.source != rb.request.source
                &&& ra.request.source != rb.request.target
                &&& ra.request.target != rb.request.source
                &&& ra.request.target != rb.request.target
            } by {
                if a == i {
                    assert(disjoint_from_earlier(*d, i as int));
                    assert(v@[b] == d.pending_relocations@[b]);
                } else if b == i {
                    assert(disjoint_from_earlier(*d, i as int));
                    assert(v@[a] == d.pending_relocations@[a]);
                }
            }
        }
        i = i + 1;
    }
    proof {
        assert forall|k: Seq<char>| #[trigger] d@.pending_relocations.dom().contains(k) implies relocation_entry_ok(
            d@, k, d@.pending_relocations[k]) by {
            lemma_keyed_map_key(v@, k);
            assert(v@[index_of_key(v@, k)].key@ == k);
        }
        assert forall|a: Seq<char>, b: Seq<char>|
            #[trigger] d@.pending_relocations.dom().contains(a) && #[trigger]
            d@.pending_relocations.dom().contains(b) && a != b implies {
                let ra = d@.pending_relocations[a];
                let rb = d@.pending_relocations[b];
                &&& ra.attempt_id != rb.attempt_id
                &&& ra.request.source != rb.request.source
                &&& ra.request.source != rb.request.target
                &&& ra.request.target != rb.request.source
                &&& ra.request.target != rb.request.target
            } by {
            lemma_keyed_map_key(v@, a);
            lemma_keyed_map_key(v@, b);
            let ia = index_of_key(v@, a);
            let ib = index_of_key(v@, b);
            assert(ia != ib);
            assert(v@[ia] == v@[ia]);
            assert(v@[ib] == v@[ib]);
        }
    }
    Ok(())
}

/// The error of a document that breaks the invariant, by the first group
/// of rules it breaks, in the order they are checked.
pub open spec fn store_error(d: StoreView, e: PumasError) -> bool {
    if !relocations_ok(d) {
        relocations_error(d, e)
    } else if !attempt_ids_unique(d) {
        is_error(e, "downloads.admission_attempts"@, "Admission attempt identity is owned by more than one record"@)
    } else if d.schema_version != DOWNLOAD_STORE_SCHEMA_VERSION {
        is_error(
            e,
            "downloads.schema_version"@,
            "Unsupported download store schema version "@ + decimal(d.schema_version as nat),
        )
    } else if !downloads_ok(d) {
        downloads_error(d, e)
    } else if !revocations_ok(d) {
        revocations_error(d, e)
    } else if !attempts_ok(d) || !attempt_slots_distinct(d) {
        attempts_error(d, e)
    } else if !queue_ok(d) || !queue_slots_distinct(d) {
        queue_group_error(d, e)
    } else if !released_ok(d) || !released_slots_distinct(d) {
        released_group_error(d, e)
    } else if !predecessors_ok(d) {
        predecessors_error(d, e)
    } else {
        quarantines_error(d, e)
    }
}

/// Check the whole store document invariant.
pub fn validate_store_data(d: &DownloadStoreData) -> (r: Result<(), PumasError>)
    requires
        store_wf(*d),
    ensures
        r is Ok <==> store_valid(d@),
        r matches Err(e) ==> store_error(d@, e),
{
    check_relocations(d)?;
    check_attempt_ids(d)?;
    if d.schema_version != DOWNLOAD_STORE_SCHEMA_VERSION {
        let version = decimal_text(d.schema_version as u64);
        let message = framed("Unsupported download store schema version ", version.as_str(), "");
        proof {
            reveal_strlit("");
            assert(message@ =~= "Unsupported download store schema version "@ + decimal(d.schema_version as nat));
        }
        return Err(
            invalid(
                "downloads.schema_version",
                message,
            ),
        );
    }
    check_downloads(d)?;
    check_revocations(d)?;
    check_attempts(d)?;
    check_queue(d)?;
    check_released(d)?;
    check_predecessors(d)?;
    check_quarantines(d)?;
    Ok(())
}

} // verus!
