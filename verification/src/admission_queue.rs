//! FIFO positions of admissions that share a destination.

use crate::error::{is_error, validation_error, PumasError};
use crate::keyed::{
    index_of_key, keyed_map, keys_unique, lemma_keyed_map_at, lemma_keyed_map_key, Keyed,
};
use crate::store_invariant::{attempt_slot, owner_of, queue_slot, store_valid, store_wf};
use crate::store_model::{
    DestinationView, DownloadAdmissionPosition, DownloadStoreData, PersistedAdmissionAttempt,
    PersistedDestinationIdentity, PersistedQueueAdmission, QueuePredecessor, StoreView,
};
use crate::strings::clone_string;
use vstd::prelude::*;

verus! {

/// Some admission (queued, released or intended) holds ordinal `ord` at `dest`.
pub open spec fn has_slot(d: StoreView, dest: DestinationView, ord: u64) -> bool {
    ||| exists|k: Seq<char>| #[trigger]
        d.queue_admissions.dom().contains(k) && queue_slot(d.queue_admissions[k]) == (dest, ord)
    ||| exists|k: Seq<char>| #[trigger]
        d.released_queue_admissions.dom().contains(k) && queue_slot(d.released_queue_admissions[k])
            == (dest, ord)
    ||| exists|k: Seq<char>| #[trigger]
        d.admission_attempts.dom().contains(k) && attempt_slot(d.admission_attempts[k]) == (dest, ord)
}

/// Some admission uses the destination.
pub open spec fn dest_used(d: StoreView, dest: DestinationView) -> bool {
    exists|ord: u64| #[trigger] has_slot(d, dest, ord)
}

/// `ord` is the greatest ordinal used at `dest`.
pub open spec fn max_slot(d: StoreView, dest: DestinationView, ord: u64) -> bool {
    &&& has_slot(d, dest, ord)
    &&& forall|o: u64| #[trigger] has_slot(d, dest, o) ==> o <= ord
}

/// The position after the latest admission at the destination: ordinal 0
/// with no predecessor for an unused destination, else one past the greatest
/// ordinal, with the admission holding it as predecessor.
pub open spec fn next_position_ok(d: StoreView, dest: DestinationView, r: Result<DownloadAdmissionPosition, PumasError>) -> bool {
    match r {
        Ok(pos) => match pos.predecessor {
            None => !dest_used(d, dest) && pos.ordinal == 0,
            Some(p) => pos.ordinal > 0 && max_slot(d, dest, (pos.ordinal - 1) as u64) && owner_of(
                d,
                p.download_id@,
                p.admission_attempt_id@,
            ) == Some((dest, (pos.ordinal - 1) as u64)),
        },
        Err(e) => max_slot(d, dest, u64::MAX) && is_error(
            e,
            "downloads.queue_admissions"@,
            "Download admission ordinal overflow"@,
        ),
    }
}

/// The latest queued or released admission of `v` at `dest`, starting from `best`.
fn scan_queue(
    v: &Vec<Keyed<PersistedQueueAdmission>>,
    dest: &PersistedDestinationIdentity,
    best: Option<(u64, String, String)>,
) -> (r: Option<(u64, String, String)>)
    requires
        keys_unique(v@),
    ensures
        ({
            let m = keyed_map(v@);
            match r {
                None => best is None && forall|k: Seq<char>| #[trigger]
                    m.dom().contains(k) ==> m[k].destination != dest@,
                Some((o, did, aid)) => {
                    &&& (r == best || (m.dom().contains(did@) && m[did@].attempt_id == aid@
                        && queue_slot(m[did@]) == (dest@, o)))
                    &&& best matches Some((bo, _, _)) ==> bo <= o
                    &&& forall|k: Seq<char>| #[trigger]
                        m.dom().contains(k) && m[k].destination == dest@ ==> m[k].position.ordinal <= o
                },
            }
        }),
{
    let mut best = best;
    let ghost init = best;
    let mut i: usize = 0;
    while i < v.len()
        invariant
            keys_unique(v@),
            i <= v@.len(),
            match best {
                None => init is None && forall|j: int| 0 <= j < i ==> #[trigger] v@[j].value.destination@ != dest@,
                Some((o, did, aid)) => {
                    &&& (best == init || exists|j: int|
                        0 <= j < i && #[trigger] v@[j].key@ == did@ && v@[j].value.attempt_id@ == aid@
                            && v@[j].value.destination@ == dest@ && v@[j].value.position.ordinal == o)
                    &&& init matches Some((bo, _, _)) ==> bo <= o
                    &&& forall|j: int|
                        0 <= j < i && #[trigger] v@[j].value.destination@ == dest@ ==> v@[j].value.position.ordinal <= o
                },
            },
        decreases v.len() - i,
    {
        let e = &v[i];
        if e.value.destination.same_as(dest) {
            let take = match &best {
                None => true,
                Some((o, _, _)) => e.value.position.ordinal > *o,
            };
            if take {
                best = Some((e.value.position.ordinal, clone_string(&e.key), clone_string(&e.value.attempt_id)));
                assert(v@[i as int].key@ == e.key@);
            }
        }
        i = i + 1;
    }
    let ghost fin = best;
    proof {
        let m = keyed_map(v@);
        match fin {
            None => {
                assert forall|k: Seq<char>| #[trigger] m.dom().contains(k) implies m[k].destination != dest@ by {
                    lemma_keyed_map_key(v@, k);
                    let j = index_of_key(v@, k);
                    assert(v@[j].value.destination@ != dest@);
                }
            },
            Some((o, did, aid)) => {
                if fin != init {
                    let j = choose|j: int|
                        0 <= j < v@.len() && #[trigger] v@[j].key@ == did@ && v@[j].value.attempt_id@ == aid@
                            && v@[j].value.destination@ == dest@ && v@[j].value.position.ordinal == o;
                    lemma_keyed_map_at(v@, j);
                }
                assert forall|k: Seq<char>| #[trigger]
                    m.dom().contains(k) && m[k].destination == dest@ implies m[k].position.ordinal <= o by {
                    lemma_keyed_map_key(v@, k);
                    let j = index_of_key(v@, k);
                    assert(v@[j].value.destination@ == dest@);
                }
            },
        }
    }
    best
}

/// The latest intended admission of `v` at `dest`, starting from `best`.
fn scan_attempts(
    v: &Vec<Keyed<PersistedAdmissionAttempt>>,
    dest: &PersistedDestinationIdentity,
    best: Option<(u64, String, String)>,
) -> (r: Option<(u64, String, String)>)
    requires
        keys_unique(v@),
    ensures
        ({
            let m = keyed_map(v@);
            match r {
                None => best is None && forall|k: Seq<char>| #[trigger]
                    m.dom().contains(k) ==> m[k].request.destination != dest@,
                Some((o, did, aid)) => {
                    &&& (r == best || (m.dom().contains(aid@) && m[aid@].request.snapshot.download_id
                        == did@ && attempt_slot(m[aid@]) == (dest@, o)))
                    &&& best matches Some((bo, _, _)) ==> bo <= o
                    &&& forall|k: Seq<char>| #[trigger]
                        m.dom().contains(k) && m[k].request.destination == dest@ ==> m[k].position.ordinal
                            <= o
                },
            }
        }),
{
    let mut best = best;
    let ghost init = best;
    let mut i: usize = 0;
    while i < v.len()
        invariant
            keys_unique(v@),
            i <= v@.len(),
            match best {
                None => init is None && forall|j: int|
                    0 <= j < i ==> #[trigger] v@[j].value.request.destination@ != dest@,
                Some((o, did, aid)) => {
                    &&& (best == init || exists|j: int|
                        0 <= j < i && #[trigger] v@[j].key@ == aid@ && v@[j].value.request.snapshot.download_id@
                            == did@ && v@[j].value.request.destination@ == dest@ && v@[j].value.position.ordinal
                            == o)
                    &&& init matches Some((bo, _, _)) ==> bo <= o
                    &&& forall|j: int|
                        0 <= j < i && #[trigger] v@[j].value.request.destination@ == dest@
                            ==> v@[j].value.position.ordinal <= o
                },
            },
        decreases v.len() - i,
    {
        let e = &v[i];
        if e.value.request.destination.same_as(dest) {
            let take = match &best {
                None => true,
                Some((o, _, _)) => e.value.position.ordinal > *o,
            };
            if take {
                best = Some(
                    (
                        e.value.position.ordinal,
                        clone_string(&e.value.request.snapshot.download_id),
                        clone_string(&e.key),
                    ),
                );
                assert(v@[i as int].key@ == e.key@);
            }
        }
        i = i + 1;
    }
    let ghost fin = best;
    proof {
        let m = keyed_map(v@);
        match fin {
            None => {
                assert forall|k: Seq<char>| #[trigger]
                    m.dom().contains(k) implies m[k].request.destination != dest@ by {
                    lemma_keyed_map_key(v@, k);
                    let j = index_of_key(v@, k);
                    assert(v@[j].value.request.destination@ != dest@);
                }
            },
            Some((o, did, aid)) => {
                if fin != init {
                    let j = choose|j: int|
                        0 <= j < v@.len() && #[trigger] v@[j].key@ == aid@
                            && v@[j].value.request.snapshot.download_id@ == did@
                            && v@[j].value.request.destination@ == dest@ && v@[j].value.position.ordinal == o;
                    lemma_keyed_map_at(v@, j);
                }
                assert forall|k: Seq<char>| #[trigger]
                    m.dom().contains(k) && m[k].request.destination == dest@ implies m[k].position.ordinal
                    <= o by {
                    lemma_keyed_map_key(v@, k);
                    let j = index_of_key(v@, k);
                    assert(v@[j].value.request.destination@ == dest@);
                }
            },
        }
    }
    best
}

/// The FIFO position of a new admission at `destination`.
pub fn next_admission_position(data: &DownloadStoreData, destination: &PersistedDestinationIdentity) -> (r: Result<
    DownloadAdmissionPosition,
    PumasError,
>)
    requires
        store_wf(*data),
        store_valid(data@),
    ensures
        next_position_ok(data@, destination@, r),
{
    let d = data;
    let b0 = scan_queue(&d.queue_admissions, destination, None);
    let b1 = scan_queue(&d.released_queue_admissions, destination, b0);
    let b2 = scan_attempts(&d.admission_attempts, destination, b1);
    let ghost dv = d@;
    let ghost dest = destination@;
    match b2 {
        None => {
            proof {
                assert forall|o: u64| !has_slot(dv, dest, o) by {
                    if has_slot(dv, dest, o) {
                        if exists|k: Seq<char>| #[trigger]
                            dv.queue_admissions.dom().contains(k) && queue_slot(dv.queue_admissions[k]) == (dest, o) {
                            let k = choose|k: Seq<char>| #[trigger]
                                dv.queue_admissions.dom().contains(k) && queue_slot(dv.queue_admissions[k])
                                    == (dest, o);
                            assert(dv.queue_admissions[k].destination != dest);
                        } else if exists|k: Seq<char>| #[trigger]
                            dv.released_queue_admissions.dom().contains(k) && queue_slot(
                                dv.released_queue_admissions[k],
                            ) == (dest, o) {
                            let k = choose|k: Seq<char>| #[trigger]
                                dv.released_queue_admissions.dom().contains(k) && queue_slot(
                                    dv.released_queue_admissions[k],
                                ) == (dest, o);
                            assert(dv.released_queue_admissions[k].destination != dest);
                        } else {
                            let k = choose|k: Seq<char>| #[trigger]
                                dv.admission_attempts.dom().contains(k) && attempt_slot(
                                    dv.admission_attempts[k],
                                ) == (dest, o);
                            assert(dv.admission_attempts[k].request.destination != dest);
                        }
                    }
                }
            }
            Ok(DownloadAdmissionPosition { ordinal: 0, predecessor: None })
        },
        Some((o, did, aid)) => {
            proof {
                // The chosen admission holds (dest, o) ...
                assert(owner_of(dv, did@, aid@) == Some((dest, o)) && has_slot(dv, dest, o)) by {
                    let qm = dv.queue_admissions;
                    let rm = dv.released_queue_admissions;
                    let am = dv.admission_attempts;
                    if am.dom().contains(aid@) && am[aid@].request.snapshot.download_id == did@
                        && attempt_slot(am[aid@]) == (dest, o) {
                        assert(!crate::store_invariant::queue_uses_attempt(rm, aid@));
                        assert(!crate::store_invariant::queue_uses_attempt(qm, aid@));
                        if rm.dom().contains(did@) && rm[did@].attempt_id == aid@ {
                            assert(crate::store_invariant::queue_uses_attempt(rm, aid@));
                        }
                        if qm.dom().contains(did@) && qm[did@].attempt_id == aid@ {
                            assert(crate::store_invariant::queue_uses_attempt(qm, aid@));
                        }
                    } else if rm.dom().contains(did@) && rm[did@].attempt_id == aid@ && queue_slot(
                        rm[did@],
                    ) == (dest, o) {
                    } else {
                        assert(qm.dom().contains(did@) && qm[did@].attempt_id == aid@ && queue_slot(
                            qm[did@],
                        ) == (dest, o));
                        if rm.dom().contains(did@) {
                            assert(!qm.dom().contains(did@));
                        }
                    }
                }
                // ... and every admission at dest has an ordinal no greater.
                assert forall|x: u64| #[trigger] has_slot(dv, dest, x) implies x <= o by {
                    if exists|k: Seq<char>| #[trigger]
                        dv.queue_admissions.dom().contains(k) && queue_slot(dv.queue_admissions[k]) == (dest, x) {
                        let k = choose|k: Seq<char>| #[trigger]
                            dv.queue_admissions.dom().contains(k) && queue_slot(dv.queue_admissions[k]) == (
                            dest,
                            x,
                        );
                        assert(dv.queue_admissions[k].destination == dest);
                    } else if exists|k: Seq<char>| #[trigger]
                        dv.released_queue_admissions.dom().contains(k) && queue_slot(
                            dv.released_queue_admissions[k],
                        ) == (dest, x) {
                        let k = choose|k: Seq<char>| #[trigger]
                            dv.released_queue_admissions.dom().contains(k) && queue_slot(
                                dv.released_queue_admissions[k],
                            ) == (dest, x);
                        assert(dv.released_queue_admissions[k].destination == dest);
                    } else {
                        let k = choose|k: Seq<char>| #[trigger]
                            dv.admission_attempts.dom().contains(k) && attempt_slot(dv.admission_attempts[k])
                                == (dest, x);
                        assert(dv.admission_attempts[k].request.destination == dest);
                    }
                }
            }
            if o == u64::MAX {
                return Err(validation_error("downloads.queue_admissions", "Download admission ordinal overflow"));
            }
            Ok(
                DownloadAdmissionPosition {
                    ordinal: o + 1,
                    predecessor: Some(QueuePredecessor { download_id: did, admission_attempt_id: aid }),
                },
            )
        },
    }
}

} // verus!
