//! The strict lifecycle inventory: what a fresh owner may resume, what it
//! must keep hidden, and what cleanup it still owes.

use crate::error::PumasError;
use crate::keyed::{
    find_key, has_key, index_of_key, insert_key, keyed_map, keys_unique, lemma_keyed_map_at,
    lemma_keyed_map_key, Keyed,
};
use crate::order::{
    lemma_seq_lt_asymmetric, lemma_seq_lt_total, lemma_seq_lt_transitive, seq_lt, str_lt,
};
use crate::persistence::DownloadPersistence;
use crate::store_check::{find_row, lemma_first_with_id, store_error, validate_store_data};
use crate::store_copy::Duplicate;
use crate::store_invariant::{
    attempt_owns_download, first_with_id, owner_snapshot, queue_request, row_has_id, store_valid,
    store_wf,
};
use crate::store_model::{
    downloads_view, AdmissionAttemptView, DownloadAdmissionPosition, DownloadAdmissionRequest,
    DownloadStoreData, LegacyRelocationRequest, LifecycleQuarantineDomain, PersistedDownload,
    PersistedDownloadView, PersistedLifecycleCleanupDisposition, PersistedQueueAdmission,
    QueueAdmissionView, QuarantineView, RelocationRequestView, StoreView,
};
use crate::store_ops::visible_row;
use crate::store_rows::keep_rows;
use crate::strings::{clone_string, clone_strings};
use vstd::prelude::*;

verus! {

/// Cleanup proof exposed to the lifecycle owner.
#[derive(Clone, Copy, Debug, PartialEq, Eq, Structural)]
pub enum LifecycleCleanupDisposition {
    Pending,
    Verified,
}

pub struct LifecycleQuarantine {
    pub snapshot: PersistedDownload,
    pub domain: LifecycleQuarantineDomain,
    pub disposition: LifecycleCleanupDisposition,
    pub sticky_failure: bool,
}

pub struct LifecycleQuarantineView {
    pub snapshot: PersistedDownloadView,
    pub domain: LifecycleQuarantineDomain,
    pub disposition: LifecycleCleanupDisposition,
    pub sticky_failure: bool,
}

impl View for LifecycleQuarantine {
    type V = LifecycleQuarantineView;

    open spec fn view(&self) -> LifecycleQuarantineView {
        LifecycleQuarantineView {
            snapshot: self.snapshot@,
            domain: self.domain,
            disposition: self.disposition,
            sticky_failure: self.sticky_failure,
        }
    }
}

/// An admission that a fresh owner must not expose until it is retried.
pub struct HiddenDownloadAdmission {
    pub request: DownloadAdmissionRequest,
    pub position: DownloadAdmissionPosition,
}

impl View for HiddenDownloadAdmission {
    type V = AdmissionAttemptView;

    open spec fn view(&self) -> AdmissionAttemptView {
        AdmissionAttemptView { request: self.request@, position: self.position@ }
    }
}

/// A relocation intent with the row it parks.
pub struct PendingLegacyRelocation {
    pub request: LegacyRelocationRequest,
    pub snapshot: PersistedDownload,
}

pub struct PendingRelocationView {
    pub request: RelocationRequestView,
    pub snapshot: PersistedDownloadView,
}

impl View for PendingLegacyRelocation {
    type V = PendingRelocationView;

    open spec fn view(&self) -> PendingRelocationView {
        PendingRelocationView { request: self.request@, snapshot: self.snapshot@ }
    }
}

pub struct PersistedDownloadInventory {
    pub downloads: Vec<PersistedDownload>,
    pub quarantines: Vec<Keyed<LifecycleQuarantine>>,
    pub hidden_admissions: Vec<Keyed<HiddenDownloadAdmission>>,
    pub queue_admissions: Vec<Keyed<PersistedQueueAdmission>>,
    pub pending_relocations: Vec<Keyed<PendingLegacyRelocation>>,
}

/// A quarantine as exposed: verified only when this process confirmed it.
pub open spec fn exposed_quarantine(q: QuarantineView, confirmed: bool) -> LifecycleQuarantineView {
    LifecycleQuarantineView {
        snapshot: q.snapshot,
        domain: q.domain,
        disposition: if q.disposition == PersistedLifecycleCleanupDisposition::Verified && confirmed {
            LifecycleCleanupDisposition::Verified
        } else {
            LifecycleCleanupDisposition::Pending
        },
        sticky_failure: q.sticky_failure,
    }
}

pub open spec fn exposed_quarantines(d: StoreView, cleanups: Set<Seq<char>>) -> Map<Seq<char>, LifecycleQuarantineView> {
    Map::new(
        |k: Seq<char>| d.lifecycle_quarantines.dom().contains(k),
        |k: Seq<char>| exposed_quarantine(d.lifecycle_quarantines[k], cleanups.contains(k)),
    )
}

pub open spec fn confirmed_queue(d: StoreView, confirmed: Set<Seq<char>>) -> Map<Seq<char>, QueueAdmissionView> {
    Map::new(
        |k: Seq<char>| d.queue_admissions.dom().contains(k) && confirmed.contains(d.queue_admissions[k].attempt_id),
        |k: Seq<char>| d.queue_admissions[k],
    )
}

pub open spec fn unconfirmed_queue(d: StoreView, confirmed: Set<Seq<char>>, k: Seq<char>) -> bool {
    d.queue_admissions.dom().contains(k) && !confirmed.contains(d.queue_admissions[k].attempt_id)
}

/// `a` is the greatest attempt id among the intents of download `k`.
pub open spec fn is_latest_attempt(d: StoreView, k: Seq<char>, a: Seq<char>) -> bool {
    &&& d.admission_attempts.dom().contains(a)
    &&& d.admission_attempts[a].request.snapshot.download_id == k
    &&& forall|b: Seq<char>| #[trigger]
        d.admission_attempts.dom().contains(b) && d.admission_attempts[b].request.snapshot.download_id == k && b
            != a ==> seq_lt(b, a)
}

/// The hidden admission of download `k`: its unconfirmed queue admission,
/// else its intent with the greatest attempt id.
pub open spec fn hidden_admission(d: StoreView, confirmed: Set<Seq<char>>, k: Seq<char>) -> AdmissionAttemptView {
    if unconfirmed_queue(d, confirmed, k) {
        AdmissionAttemptView {
            request: queue_request(d, k, d.queue_admissions[k]),
            position: d.queue_admissions[k].position,
        }
    } else {
        d.admission_attempts[choose|a: Seq<char>| is_latest_attempt(d, k, a)]
    }
}

pub open spec fn hidden_admissions(d: StoreView, confirmed: Set<Seq<char>>) -> Map<Seq<char>, AdmissionAttemptView> {
    Map::new(
        |k: Seq<char>| unconfirmed_queue(d, confirmed, k) || attempt_owns_download(d.admission_attempts, k),
        |k: Seq<char>| hidden_admission(d, confirmed, k),
    )
}

pub open spec fn parked_relocations(d: StoreView) -> Map<Seq<char>, PendingRelocationView> {
    Map::new(
        |k: Seq<char>| d.pending_relocations.dom().contains(k),
        |k: Seq<char>| PendingRelocationView {
            request: d.pending_relocations[k].request,
            snapshot: d.downloads[first_with_id(d.downloads, k)],
        },
    )
}

fn expose_quarantines(data: &DownloadStoreData, store: &DownloadPersistence) -> (r: Vec<Keyed<LifecycleQuarantine>>)
    requires
        store_wf(*data),
    ensures
        keys_unique(r@),
        keyed_map(r@) == exposed_quarantines(data@, store@.confirmed_cleanups),
{
    let v = &data.lifecycle_quarantines;
    let ghost target = exposed_quarantines(data@, store@.confirmed_cleanups);
    let mut out: Vec<Keyed<LifecycleQuarantine>> = Vec::new();
    let mut i: usize = 0;
    while i < v.len()
        invariant
            store_wf(*data),
            v == &data.lifecycle_quarantines,
            target == exposed_quarantines(data@, store@.confirmed_cleanups),
            i <= v@.len(),
            keys_unique(out@),
            forall|k: Seq<char>| #[trigger]
                keyed_map(out@).dom().contains(k) <==> has_key(v@.take(i as int), k),
            forall|k: Seq<char>| #[trigger]
                keyed_map(out@).dom().contains(k) ==> keyed_map(out@)[k] == target[k],
        decreases v.len() - i,
    {
        proof {
            lemma_keyed_map_at(v@, i as int);
        }
        let q = &v[i].value;
        let verified = store.is_confirmed_cleanup(v[i].key.as_str());
        let e = LifecycleQuarantine {
            snapshot: q.snapshot.duplicate(),
            domain: q.domain,
            disposition: if q.disposition == PersistedLifecycleCleanupDisposition::Verified && verified {
                LifecycleCleanupDisposition::Verified
            } else {
                LifecycleCleanupDisposition::Pending
            },
            sticky_failure: q.sticky_failure,
        };
        let ghost before = keyed_map(out@);
        insert_key(&mut out, clone_string(&v[i].key), e);
        proof {
            assert forall|k: Seq<char>| #[trigger]
                keyed_map(out@).dom().contains(k) <==> has_key(v@.take(i + 1), k) by {
                if has_key(v@.take(i + 1), k) {
                    let j = choose|j: int| 0 <= j < v@.take(i + 1).len() && #[trigger] v@.take(i + 1)[j].key@ == k;
                    if j < i {
                        assert(v@.take(i as int)[j].key@ == k);
                    }
                }
                if has_key(v@.take(i as int), k) {
                    let j = choose|j: int| 0 <= j < v@.take(i as int).len() && #[trigger] v@.take(i as int)[j].key@ == k;
                    assert(v@.take(i + 1)[j].key@ == k);
                }
                assert(v@.take(i + 1)[i as int].key@ == v@[i as int].key@);
            }
        }
        i = i + 1;
    }
    proof {
        assert(v@.take(v@.len() as int) =~= v@);
        assert forall|k: Seq<char>| keyed_map(out@).dom().contains(k) <==> target.dom().contains(k) by {
            if has_key(v@, k) {
                let j = choose|j: int| 0 <= j < v@.len() && #[trigger] v@[j].key@ == k;
                lemma_keyed_map_at(v@, j);
            }
            if keyed_map(v@).dom().contains(k) {
                lemma_keyed_map_key(v@, k);
            }
        }
        assert(keyed_map(out@) =~= target);
    }
    out
}

fn confirmed_queue_admissions(data: &DownloadStoreData, store: &DownloadPersistence) -> (r: Vec<
    Keyed<PersistedQueueAdmission>,
>)
    requires
        store_wf(*data),
    ensures
        keys_unique(r@),
        keyed_map(r@) == confirmed_queue(data@, store@.confirmed_admissions),
{
    let v = &data.queue_admissions;
    let ghost target = confirmed_queue(data@, store@.confirmed_admissions);
    let mut out: Vec<Keyed<PersistedQueueAdmission>> = Vec::new();
    let mut i: usize = 0;
    while i < v.len()
        invariant
            store_wf(*data),
            v == &data.queue_admissions,
            target == confirmed_queue(data@, store@.confirmed_admissions),
            i <= v@.len(),
            keys_unique(out@),
            forall|k: Seq<char>| #[trigger]
                keyed_map(out@).dom().contains(k) <==> has_key(v@.take(i as int), k) && target.dom().contains(k),
            forall|k: Seq<char>| #[trigger]
                keyed_map(out@).dom().contains(k) ==> keyed_map(out@)[k] == target[k],
        decreases v.len() - i,
    {
        proof {
            lemma_keyed_map_at(v@, i as int);
        }
        let ghost before = keyed_map(out@);
        if store.is_confirmed_admission(v[i].value.attempt_id.as_str()) {
            insert_key(&mut out, clone_string(&v[i].key), v[i].value.duplicate());
        }
        proof {
            assert forall|k: Seq<char>| #[trigger]
                keyed_map(out@).dom().contains(k) <==> has_key(v@.take(i + 1), k) && target.dom().contains(k) by {
                if has_key(v@.take(i + 1), k) {
                    let j = choose|j: int| 0 <= j < v@.take(i + 1).len() && #[trigger] v@.take(i + 1)[j].key@ == k;
                    if j < i {
                        assert(v@.take(i as int)[j].key@ == k);
                    }
                }
                if has_key(v@.take(i as int), k) {
                    let j = choose|j: int| 0 <= j < v@.take(i as int).len() && #[trigger] v@.take(i as int)[j].key@ == k;
                    assert(v@.take(i + 1)[j].key@ == k);
                }
                assert(v@.take(i + 1)[i as int].key@ == v@[i as int].key@);
            }
        }
        i = i + 1;
    }
    proof {
        assert(v@.take(v@.len() as int) =~= v@);
        assert forall|k: Seq<char>| keyed_map(out@).dom().contains(k) <==> target.dom().contains(k) by {
            if target.dom().contains(k) {
                lemma_keyed_map_key(v@, k);
                let j = index_of_key(v@, k);
                assert(v@[j].key@ == k);
            }
        }
        assert(keyed_map(out@) =~= target);
    }
    out
}

fn parked_relocation_snapshots(data: &DownloadStoreData) -> (r: Vec<Keyed<PendingLegacyRelocation>>)
    requires
        store_wf(*data),
        store_valid(data@),
    ensures
        keys_unique(r@),
        keyed_map(r@) == parked_relocations(data@),
{
    let v = &data.pending_relocations;
    let ghost d = data@;
    let ghost target = parked_relocations(data@);
    let mut out: Vec<Keyed<PendingLegacyRelocation>> = Vec::new();
    let mut i: usize = 0;
    while i < v.len()
        invariant
            store_wf(*data),
            store_valid(data@),
            d == data@,
            v == &data.pending_relocations,
            target == parked_relocations(data@),
            i <= v@.len(),
            keys_unique(out@),
            forall|k: Seq<char>| #[trigger]
                keyed_map(out@).dom().contains(k) <==> has_key(v@.take(i as int), k),
            forall|k: Seq<char>| #[trigger]
                keyed_map(out@).dom().contains(k) ==> keyed_map(out@)[k] == target[k],
        decreases v.len() - i,
    {
        proof {
            lemma_keyed_map_at(v@, i as int);
            let k = v@[i as int].key@;
            assert(crate::store_invariant::relocation_entry_ok(d, k, d.pending_relocations[k]));
            let w = choose|w: int|
                0 <= w < d.downloads.len() && #[trigger] d.downloads[w].download_id == k
                    && crate::store_invariant::is_inactive(d.downloads[w].status);
            assert(row_has_id(d.downloads, k));
        }
        let row = find_row(&data.downloads, &v[i].key).unwrap();
        proof {
            lemma_first_with_id(d.downloads, v@[i as int].key@, row as int);
        }
        let e = PendingLegacyRelocation {
            request: v[i].value.request.duplicate(),
            snapshot: data.downloads[row].duplicate(),
        };
        insert_key(&mut out, clone_string(&v[i].key), e);
        proof {
            assert forall|k: Seq<char>| #[trigger]
                keyed_map(out@).dom().contains(k) <==> has_key(v@.take(i + 1), k) by {
                if has_key(v@.take(i + 1), k) {
                    let j = choose|j: int| 0 <= j < v@.take(i + 1).len() && #[trigger] v@.take(i + 1)[j].key@ == k;
                    if j < i {
                        assert(v@.take(i as int)[j].key@ == k);
                    }
                }
                if has_key(v@.take(i as int), k) {
                    let j = choose|j: int| 0 <= j < v@.take(i as int).len() && #[trigger] v@.take(i as int)[j].key@ == k;
                    assert(v@.take(i + 1)[j].key@ == k);
                }
                assert(v@.take(i + 1)[i as int].key@ == v@[i as int].key@);
            }
        }
        i = i + 1;
    }
    proof {
        assert(v@.take(v@.len() as int) =~= v@);
        assert forall|k: Seq<char>| keyed_map(out@).dom().contains(k) <==> target.dom().contains(k) by {
            if has_key(v@, k) {
                let j = choose|j: int| 0 <= j < v@.len() && #[trigger] v@[j].key@ == k;
                lemma_keyed_map_at(v@, j);
            }
            if keyed_map(v@).dom().contains(k) {
                lemma_keyed_map_key(v@, k);
            }
        }
        assert(keyed_map(out@) =~= target);
    }
    out
}

/// The intents of the first `i` entries: for every download, the chosen
/// attempt is the greatest attempt id among them.
pub open spec fn intents_prefix_ok(
    v: Seq<Keyed<crate::store_model::PersistedAdmissionAttempt>>,
    i: int,
    out: Map<Seq<char>, AdmissionAttemptView>,
    chosen: Map<Seq<char>, Seq<char>>,
) -> bool {
    &&& forall|k: Seq<char>| out.dom().contains(k) <==> chosen.dom().contains(k)
    &&& forall|k: Seq<char>| #[trigger]
        chosen.dom().contains(k) <==> exists|j: int| 0 <= j < i && #[trigger] v[j].value.request.snapshot.download_id@ == k
    &&& forall|k: Seq<char>| #[trigger]
        chosen.dom().contains(k) ==> exists|j0: int|
            0 <= j0 < i && #[trigger] v[j0].key@ == chosen[k] && v[j0].value.request.snapshot.download_id@ == k
                && out[k] == v[j0].value@
    &&& forall|k: Seq<char>, j: int| #![trigger chosen[k], v[j]]
        chosen.dom().contains(k) && 0 <= j < i && v[j].value.request.snapshot.download_id@ == k && v[j].key@
            != chosen[k] ==> seq_lt(v[j].key@, chosen[k])
}

fn latest_intents(data: &DownloadStoreData) -> (r: Vec<Keyed<HiddenDownloadAdmission>>)
    requires
        store_wf(*data),
    ensures
        keys_unique(r@),
        forall|k: Seq<char>| #[trigger]
            keyed_map(r@).dom().contains(k) <==> attempt_owns_download(data@.admission_attempts, k),
        forall|k: Seq<char>| #[trigger]
            keyed_map(r@).dom().contains(k) ==> exists|a: Seq<char>|
                is_latest_attempt(data@, k, a) && keyed_map(r@)[k] == #[trigger] data@.admission_attempts[a],
{
    let v = &data.admission_attempts;
    let mut out: Vec<Keyed<HiddenDownloadAdmission>> = Vec::new();
    let mut chosen: Vec<Keyed<String>> = Vec::new();
    let mut i: usize = 0;
    assert(keyed_map(out@) =~= Map::empty());
    assert(keyed_map(chosen@) =~= Map::empty());
    while i < v.len()
        invariant
            store_wf(*data),
            v == &data.admission_attempts,
            i <= v@.len(),
            keys_unique(out@),
            keys_unique(chosen@),
            intents_prefix_ok(v@, i as int, keyed_map(out@), keyed_map(chosen@)),
        decreases v.len() - i,
    {
        let ghost om = keyed_map(out@);
        let ghost cm = keyed_map(chosen@);
        let ghost vi = v@[i as int];
        let ghost k = vi.value.request.snapshot.download_id@;
        let id = &v[i].value.request.snapshot.download_id;
        let take = match find_key(&chosen, id) {
            Some(j) => str_lt(chosen[j].value.as_str(), v[i].key.as_str()),
            None => true,
        };
        if take {
            let e = HiddenDownloadAdmission {
                request: v[i].value.request.duplicate(),
                position: v[i].value.position.duplicate(),
            };
            insert_key(&mut out, clone_string(id), e);
            insert_key(&mut chosen, clone_string(id), clone_string(&v[i].key));
            proof {
                let om2 = keyed_map(out@);
                let cm2 = keyed_map(chosen@);
                assert forall|kk: Seq<char>| #[trigger]
                    cm2.dom().contains(kk) implies exists|j0: int|
                        0 <= j0 < i + 1 && #[trigger] v@[j0].key@ == cm2[kk]
                            && v@[j0].value.request.snapshot.download_id@ == kk && om2[kk] == v@[j0].value@ by {
                    if cm2.dom().contains(kk) && kk != k {
                        let j0 = choose|j0: int|
                            0 <= j0 < i && #[trigger] v@[j0].key@ == cm[kk]
                                && v@[j0].value.request.snapshot.download_id@ == kk && om[kk] == v@[j0].value@;
                        assert(v@[j0].key@ == cm2[kk]);
                    }
                    if kk == k {
                        assert(v@[i as int].key@ == cm2[kk]);
                    }
                }
                assert forall|kk: Seq<char>, j: int| #![trigger cm2[kk], v@[j]]
                    cm2.dom().contains(kk) && 0 <= j < i + 1 && v@[j].value.request.snapshot.download_id@ == kk
                        && v@[j].key@ != cm2[kk] implies seq_lt(v@[j].key@, cm2[kk]) by {
                    if kk == k && j < i {
                        if cm.dom().contains(k) {
                            if v@[j].key@ != cm[k] {
                                assert(seq_lt(v@[j].key@, cm[k]));
                                lemma_seq_lt_transitive(v@[j].key@, cm[k], vi.key@);
                            }
                        } else {
                            assert(cm.dom().contains(k));
                        }
                    }
                    if kk != k {
                        assert(v@[j].value.request.snapshot.download_id@ == kk);
                        if j == i {
                            assert(false);
                        }
                        assert(cm[kk] == cm2[kk]);
                    }
                }
                assert forall|kk: Seq<char>| #[trigger]
                    cm2.dom().contains(kk) <==> exists|j: int|
                        0 <= j < i + 1 && #[trigger] v@[j].value.request.snapshot.download_id@ == kk by {
                    if exists|j: int| 0 <= j < i + 1 && #[trigger] v@[j].value.request.snapshot.download_id@ == kk {
                        let j = choose|j: int| 0 <= j < i + 1 && #[trigger] v@[j].value.request.snapshot.download_id@ == kk;
                        if j < i {
                            assert(cm.dom().contains(kk));
                        }
                    }
                    if cm.dom().contains(kk) {
                        let j = choose|j: int| 0 <= j < i && #[trigger] v@[j].value.request.snapshot.download_id@ == kk;
                        assert(0 <= j < i + 1);
                    }
                    if kk == k {
                        assert(v@[i as int].value.request.snapshot.download_id@ == kk);
                    }
                }
            }
        } else {
            proof {
                assert(cm.dom().contains(k));
                let j0 = choose|j0: int|
                    0 <= j0 < i && #[trigger] v@[j0].key@ == cm[k] && v@[j0].value.request.snapshot.download_id@ == k
                        && om[k] == v@[j0].value@;
                assert(v@[j0].key@ != vi.key@);
                lemma_seq_lt_total(cm[k], vi.key@);
                assert forall|kk: Seq<char>, j: int| #![trigger cm[kk], v@[j]]
                    cm.dom().contains(kk) && 0 <= j < i + 1 && v@[j].value.request.snapshot.download_id@ == kk
                        && v@[j].key@ != cm[kk] implies seq_lt(v@[j].key@, cm[kk]) by {
                    if j == i {
                        assert(kk == k);
                    }
                }
                assert forall|kk: Seq<char>| #[trigger]
                    cm.dom().contains(kk) <==> exists|j: int|
                        0 <= j < i + 1 && #[trigger] v@[j].value.request.snapshot.download_id@ == kk by {
                    if exists|j: int| 0 <= j < i + 1 && #[trigger] v@[j].value.request.snapshot.download_id@ == kk {
                        let j = choose|j: int| 0 <= j < i + 1 && #[trigger] v@[j].value.request.snapshot.download_id@ == kk;
                        if j == i {
                            assert(kk == k);
                        }
                    }
                    if cm.dom().contains(kk) {
                        let j = choose|j: int| 0 <= j < i && #[trigger] v@[j].value.request.snapshot.download_id@ == kk;
                        assert(0 <= j < i + 1);
                    }
                }
                assert forall|kk: Seq<char>| #[trigger]
                    cm.dom().contains(kk) implies exists|j0: int|
                        0 <= j0 < i + 1 && #[trigger] v@[j0].key@ == cm[kk]
                            && v@[j0].value.request.snapshot.download_id@ == kk && om[kk] == v@[j0].value@ by {
                    if cm.dom().contains(kk) {
                        let j0 = choose|j0: int|
                            0 <= j0 < i && #[trigger] v@[j0].key@ == cm[kk]
                                && v@[j0].value.request.snapshot.download_id@ == kk && om[kk] == v@[j0].value@;
                        assert(0 <= j0 < i + 1);
                    }
                }
            }
        }
        i = i + 1;
    }
    proof {
        let d = data@;
        let om = keyed_map(out@);
        let cm = keyed_map(chosen@);
        assert forall|k: Seq<char>| #[trigger]
            om.dom().contains(k) <==> attempt_owns_download(d.admission_attempts, k) by {
            if om.dom().contains(k) {
                let j = choose|j: int| 0 <= j < v@.len() && #[trigger] v@[j].value.request.snapshot.download_id@ == k;
                lemma_keyed_map_at(v@, j);
            }
            if attempt_owns_download(d.admission_attempts, k) {
                let a = choose|a: Seq<char>| #[trigger]
                    d.admission_attempts.dom().contains(a) && d.admission_attempts[a].request.snapshot.download_id == k;
                lemma_keyed_map_key(v@, a);
                let j = index_of_key(v@, a);
                assert(v@[j].value.request.snapshot.download_id@ == k);
            }
        }
        assert forall|k: Seq<char>| #[trigger]
            om.dom().contains(k) implies exists|a: Seq<char>|
                is_latest_attempt(d, k, a) && om[k] == #[trigger] d.admission_attempts[a] by {
            let c = cm[k];
            let j0 = choose|j0: int|
                0 <= j0 < v@.len() && #[trigger] v@[j0].key@ == c && v@[j0].value.request.snapshot.download_id@ == k
                    && om[k] == v@[j0].value@;
            lemma_keyed_map_at(v@, j0);
            assert forall|b: Seq<char>| #[trigger]
                d.admission_attempts.dom().contains(b) && d.admission_attempts[b].request.snapshot.download_id == k
                    && b != c implies seq_lt(b, c) by {
                lemma_keyed_map_key(v@, b);
                let j = index_of_key(v@, b);
                assert(v@[j].value.request.snapshot.download_id@ == k);
                assert(v@[j].key@ != cm[k]);
            }
            assert(is_latest_attempt(d, k, c));
        }
    }
    out
}

fn hidden_admissions_of(data: &DownloadStoreData, store: &DownloadPersistence) -> (r: Vec<Keyed<HiddenDownloadAdmission>>)
    requires
        store_wf(*data),
        store_valid(data@),
    ensures
        keys_unique(r@),
        keyed_map(r@) == hidden_admissions(data@, store@.confirmed_admissions),
{
    let ghost d = data@;
    let ghost c = store@.confirmed_admissions;
    let mut out = latest_intents(data);
    let v = &data.queue_admissions;
    let mut i: usize = 0;
    while i < v.len()
        invariant
            store_wf(*data),
            store_valid(data@),
            d == data@,
            c == store@.confirmed_admissions,
            v == &data.queue_admissions,
            i <= v@.len(),
            keys_unique(out@),
            forall|k: Seq<char>| #[trigger]
                keyed_map(out@).dom().contains(k) <==> attempt_owns_download(d.admission_attempts, k) || (has_key(
                    v@.take(i as int),
                    k,
                ) && unconfirmed_queue(d, c, k)),
            forall|k: Seq<char>| #[trigger]
                keyed_map(out@).dom().contains(k) ==> if has_key(v@.take(i as int), k) && unconfirmed_queue(d, c, k) {
                    keyed_map(out@)[k] == hidden_admission(d, c, k)
                } else {
                    exists|a: Seq<char>|
                        is_latest_attempt(d, k, a) && keyed_map(out@)[k] == #[trigger] d.admission_attempts[a]
                },
        decreases v.len() - i,
    {
        proof {
            lemma_keyed_map_at(v@, i as int);
        }
        let ghost k = v@[i as int].key@;
        let ghost before = keyed_map(out@);
        let q = &v[i].value;
        if !store.is_confirmed_admission(q.attempt_id.as_str()) {
            proof {
                assert(crate::store_invariant::queue_entry_ok(d, k, d.queue_admissions[k]));
            }
            let snapshot = match find_row(&data.downloads, &v[i].key) {
                Some(j) => {
                    proof {
                        lemma_first_with_id(d.downloads, k, j as int);
                    }
                    data.downloads[j].duplicate()
                },
                None => {
                    let j = find_key(&data.lifecycle_quarantines, &v[i].key).unwrap();
                    data.lifecycle_quarantines[j].value.snapshot.duplicate()
                },
            };
            assert(snapshot@ == owner_snapshot(d, k));
            let e = HiddenDownloadAdmission {
                request: DownloadAdmissionRequest {
                    snapshot,
                    domain: q.domain,
                    destination: q.destination.duplicate(),
                    requested_payload_files: clone_strings(&q.requested_payload_files),
                    execution_files: clone_strings(&q.execution_files),
                },
                position: q.position.duplicate(),
            };
            insert_key(&mut out, clone_string(&v[i].key), e);
        }
        proof {
            assert forall|kk: Seq<char>| has_key(v@.take(i + 1), kk) <==> has_key(v@.take(i as int), kk) || kk == k by {
                if has_key(v@.take(i + 1), kk) {
                    let j = choose|j: int| 0 <= j < v@.take(i + 1).len() && #[trigger] v@.take(i + 1)[j].key@ == kk;
                    if j < i {
                        assert(v@.take(i as int)[j].key@ == kk);
                    }
                }
                if has_key(v@.take(i as int), kk) {
                    let j = choose|j: int| 0 <= j < v@.take(i as int).len() && #[trigger] v@.take(i as int)[j].key@ == kk;
                    assert(v@.take(i + 1)[j].key@ == kk);
                }
                assert(v@.take(i + 1)[i as int].key@ == k);
            }
            assert forall|kk: Seq<char>| #[trigger]
                keyed_map(out@).dom().contains(kk) <==> attempt_owns_download(d.admission_attempts, kk) || (has_key(
                    v@.take(i + 1),
                    kk,
                ) && unconfirmed_queue(d, c, kk)) by {
                assert(has_key(v@.take(i + 1), kk) <==> has_key(v@.take(i as int), kk) || kk == k);
                if kk != k {
                    assert(keyed_map(out@).dom().contains(kk) == before.dom().contains(kk));
                } else if unconfirmed_queue(d, c, kk) {
                    assert(keyed_map(out@).dom().contains(kk));
                } else {
                    assert(keyed_map(out@) == before);
                    assert(before.dom().contains(kk) <==> attempt_owns_download(d.admission_attempts, kk));
                }
            }
            assert forall|kk: Seq<char>| #[trigger]
                keyed_map(out@).dom().contains(kk) implies if has_key(v@.take(i + 1), kk) && unconfirmed_queue(d, c, kk) {
                    keyed_map(out@)[kk] == hidden_admission(d, c, kk)
                } else {
                    exists|a: Seq<char>|
                        is_latest_attempt(d, kk, a) && keyed_map(out@)[kk] == #[trigger] d.admission_attempts[a]
                } by {
                if kk != k {
                    assert(keyed_map(out@)[kk] == before[kk]);
                }
            }
        }
        i = i + 1;
    }
    proof {
        assert(v@.take(v@.len() as int) =~= v@);
        let target = hidden_admissions(d, c);
        let om = keyed_map(out@);
        assert forall|k: Seq<char>| om.dom().contains(k) <==> target.dom().contains(k) by {
            if unconfirmed_queue(d, c, k) {
                lemma_keyed_map_key(v@, k);
                let j = index_of_key(v@, k);
                assert(v@[j].key@ == k);
            }
        }
        assert forall|k: Seq<char>| om.dom().contains(k) implies om[k] == target[k] by {
            if !(has_key(v@, k) && unconfirmed_queue(d, c, k)) {
                let a = choose|a: Seq<char>| is_latest_attempt(d, k, a) && om[k] == #[trigger] d.admission_attempts[a];
                let b = choose|b: Seq<char>| is_latest_attempt(d, k, b);
                if a != b {
                    assert(seq_lt(a, b));
                    assert(seq_lt(b, a));
                    lemma_seq_lt_asymmetric(a, b);
                }
            }
        }
        assert(om =~= target);
    }
    out
}

impl DownloadPersistence {
    /// The strict lifecycle inventory of a valid document: the visible rows,
    /// every quarantine (verified only when confirmed in this process), the
    /// hidden admissions, the confirmed queue admissions and the parked
    /// relocations with their rows.
    pub fn load_lifecycle_inventory_strict(&self, data: &DownloadStoreData) -> (r: PersistedDownloadInventory)
        requires
            store_wf(*data),
            store_valid(data@),
        ensures
            downloads_view(r.downloads@) == keep_rows(data@.downloads, visible_row(data@, self@.confirmed_admissions)),
            keys_unique(r.quarantines@),
            keyed_map(r.quarantines@) == exposed_quarantines(data@, self@.confirmed_cleanups),
            keys_unique(r.hidden_admissions@),
            keyed_map(r.hidden_admissions@) == hidden_admissions(data@, self@.confirmed_admissions),
            keys_unique(r.queue_admissions@),
            keyed_map(r.queue_admissions@) == confirmed_queue(data@, self@.confirmed_admissions),
            keys_unique(r.pending_relocations@),
            keyed_map(r.pending_relocations@) == parked_relocations(data@),
    {
        PersistedDownloadInventory {
            downloads: self.load_all_strict(data),
            quarantines: expose_quarantines(data, self),
            hidden_admissions: hidden_admissions_of(data, self),
            queue_admissions: confirmed_queue_admissions(data, self),
            pending_relocations: parked_relocation_snapshots(data),
        }
    }

    /// The document a fresh owner republishes to establish a durability
    /// barrier before restoring promoted admissions.
    pub fn reconcile_lifecycle_inventory_strict(&self, data: DownloadStoreData) -> (r: Result<DownloadStoreData, PumasError>)
        requires
            store_wf(data),
        ensures
            r is Ok <==> store_valid(data@),
            r matches Ok(x) ==> store_wf(x) && x@ == data@,
            r matches Err(e) ==> store_error(data@, e),
    {
        validate_store_data(&data)?;
        Ok(data)
    }

    /// After the barrier is durable: confirm every promoted admission and
    /// every verified cleanup of the document.
    pub fn record_reconciliation(&mut self, data: &DownloadStoreData)
        requires
            store_wf(*data),
        ensures
            final(self)@.confirmed_admissions == old(self)@.confirmed_admissions.union(
                Set::new(|a: Seq<char>| crate::store_invariant::queue_uses_attempt(data@.queue_admissions, a)),
            ),
            final(self)@.confirmed_cleanups == old(self)@.confirmed_cleanups.union(
                Set::new(
                    |k: Seq<char>|
                        data@.lifecycle_quarantines.dom().contains(k) && data@.lifecycle_quarantines[k].disposition
                            == PersistedLifecycleCleanupDisposition::Verified,
                ),
            ),
            final(self)@.path == old(self)@.path,
    {
        let ghost a0 = self@.confirmed_admissions;
        let ghost c0 = self@.confirmed_cleanups;
        let q = &data.queue_admissions;
        let mut i: usize = 0;
        while i < q.len()
            invariant
                store_wf(*data),
                q == &data.queue_admissions,
                i <= q@.len(),
                self@.confirmed_cleanups == c0,
                self@.path == old(self)@.path,
                self@.confirmed_admissions == a0.union(
                    Set::new(|a: Seq<char>| exists|j: int| 0 <= j < i && #[trigger] q@[j].value.attempt_id@ == a),
                ),
            decreases q.len() - i,
        {
            self.confirm_admission(q[i].value.attempt_id.as_str());
            proof {
                assert(self@.confirmed_admissions =~= a0.union(
                    Set::new(|a: Seq<char>| exists|j: int| 0 <= j < i + 1 && #[trigger] q@[j].value.attempt_id@ == a),
                )) by {
                    assert(q@[i as int].value.attempt_id@ == q[i as int].value.attempt_id@);
                }
            }
            i = i + 1;
        }
        proof {
            assert(Set::new(|a: Seq<char>| exists|j: int| 0 <= j < q@.len() && #[trigger] q@[j].value.attempt_id@ == a)
                =~= Set::new(|a: Seq<char>| crate::store_invariant::queue_uses_attempt(data@.queue_admissions, a))) by {
                assert forall|a: Seq<char>|
                    (exists|j: int| 0 <= j < q@.len() && #[trigger] q@[j].value.attempt_id@ == a) <==> crate::store_invariant::queue_uses_attempt(
                        data@.queue_admissions,
                        a,
                    ) by {
                    if exists|j: int| 0 <= j < q@.len() && #[trigger] q@[j].value.attempt_id@ == a {
                        let j = choose|j: int| 0 <= j < q@.len() && #[trigger] q@[j].value.attempt_id@ == a;
                        lemma_keyed_map_at(q@, j);
                    }
                    if crate::store_invariant::queue_uses_attempt(data@.queue_admissions, a) {
                        let k = choose|k: Seq<char>| #[trigger]
                            data@.queue_admissions.dom().contains(k) && data@.queue_admissions[k].attempt_id == a;
                        lemma_keyed_map_key(q@, k);
                    }
                }
            }
        }
        let v = &data.lifecycle_quarantines;
        let mut i: usize = 0;
        while i < v.len()
            invariant
                store_wf(*data),
                v == &data.lifecycle_quarantines,
                i <= v@.len(),
                self@.path == old(self)@.path,
                self@.confirmed_admissions == old(self)@.confirmed_admissions.union(
                    Set::new(|a: Seq<char>| crate::store_invariant::queue_uses_attempt(data@.queue_admissions, a)),
                ),
                self@.confirmed_cleanups == c0.union(
                    Set::new(
                        |k: Seq<char>|
                            exists|j: int|
                                0 <= j < i && #[trigger] v@[j].key@ == k && v@[j].value.disposition
                                    == PersistedLifecycleCleanupDisposition::Verified,
                    ),
                ),
            decreases v.len() - i,
        {
            if v[i].value.disposition == PersistedLifecycleCleanupDisposition::Verified {
                self.confirm_cleanup(v[i].key.as_str());
            }
            proof {
                assert(self@.confirmed_cleanups =~= c0.union(
                    Set::new(
                        |k: Seq<char>|
                            exists|j: int|
                                0 <= j < i + 1 && #[trigger] v@[j].key@ == k && v@[j].value.disposition
                                    == PersistedLifecycleCleanupDisposition::Verified,
                    ),
                )) by {
                    assert(v@[i as int].key@ == v[i as int].key@);
                }
            }
            i = i + 1;
        }
        proof {
            let want = Set::new(
                |k: Seq<char>|
                    data@.lifecycle_quarantines.dom().contains(k) && data@.lifecycle_quarantines[k].disposition
                        == PersistedLifecycleCleanupDisposition::Verified,
            );
            let got = Set::new(
                |k: Seq<char>|
                    exists|j: int|
                        0 <= j < v@.len() && #[trigger] v@[j].key@ == k && v@[j].value.disposition
                            == PersistedLifecycleCleanupDisposition::Verified,
            );
            assert forall|k: Seq<char>| got.contains(k) <==> want.contains(k) by {
                if got.contains(k) {
                    let j = choose|j: int|
                        0 <= j < v@.len() && #[trigger] v@[j].key@ == k && v@[j].value.disposition
                            == PersistedLifecycleCleanupDisposition::Verified;
                    lemma_keyed_map_at(v@, j);
                }
                if want.contains(k) {
                    lemma_keyed_map_key(v@, k);
                    let j = index_of_key(v@, k);
                    assert(v@[j].key@ == k);
                }
            }
            assert(got =~= want);
        }
    }
}

} // verus!
