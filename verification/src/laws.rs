//! Properties that relate several operations of the library.

use crate::admission::{admission_promoted, reserved_destination};
use crate::relocation_ops::{relocated_row, relocation_completed, relocation_intent};
use crate::admission_queue::{has_slot, next_position_ok};
use crate::inventory::unconfirmed_queue;
use crate::lifecycle_ops::{fresh_quarantine, quarantine_documents, revocation_intent, settled};
use crate::migration::{marked_rows, needs_mark};
use crate::ipc_protocol::{frame, header_len, read_outcome, MAX_IPC_MESSAGE_SIZE};
use crate::order::{lemma_seq_lt_asymmetric, lemma_seq_lt_irreflexive, seq_lt};
use crate::recovery_meta::{file_list_members, file_list_ok, strictly_sorted};
use crate::recovery_ticket::{
    issue_outcome, issued, request_outcome, ticket_for, verified, verify_outcome, DownloadRecoveryTicket,
    DownloadRecoveryVerification, RecoveryPlacement,
};
use crate::recovery_meta::{RecoveryMetadata, RecoveryRequest};
use crate::error::PumasError;
use crate::store_invariant::{first_with_id, is_first_with_id, row_has_id, store_valid};
use crate::store_model::{
    AdmissionRequestView, DestinationView, DownloadAdmissionPosition, LifecycleQuarantineDomain,
    RelocationRequestView, PersistedDownloadView, PersistedLifecycleCleanupDisposition,
    PositionView, StoreView,
};
use crate::store_ops::{removed, save_refused, saved, visible_row};
use crate::store_rows::{id_is_not, keep_rows, lemma_keep_rows_contains, upsert_rows};
use crate::destination_queue::{
    claim_index, dormant_step, promote_step, release_step, reserve_step, turn_of, DestinationDomain,
    QueueView, Turn,
};
use vstd::prelude::*;

verus! {

proof fn lemma_upsert_contains(ds: Seq<PersistedDownloadView>, x: PersistedDownloadView)
    ensures
        upsert_rows(ds, x).contains(x),
{
    let n = upsert_rows(ds, x);
    if row_has_id(ds, x.download_id) {
        let i = first_with_id(ds, x.download_id);
        let w = choose|w: int| 0 <= w < ds.len() && #[trigger] ds[w].download_id == x.download_id;
        let f = choose|f: int| is_first_with_id(ds, x.download_id, f);
        assert(is_first_with_id(ds, x.download_id, f)) by {
            if !is_first_with_id(ds, x.download_id, f) {
                lemma_first_exists(ds, x.download_id, w);
            }
        }
        assert(n[i] == x);
    } else {
        assert(n[ds.len() as int] == x);
    }
}

proof fn lemma_first_exists(ds: Seq<PersistedDownloadView>, id: Seq<char>, w: int)
    requires
        0 <= w < ds.len(),
        ds[w].download_id == id,
    ensures
        exists|f: int| is_first_with_id(ds, id, f),
    decreases w,
{
    if exists|j: int| 0 <= j < w && #[trigger] ds[j].download_id == id {
        let j = choose|j: int| 0 <= j < w && #[trigger] ds[j].download_id == id;
        lemma_first_exists(ds, id, j);
    } else {
        assert(is_first_with_id(ds, id, w));
    }
}

/// A saved download is listed by a strict listing of the saved document,
/// whatever this process has confirmed.
pub proof fn law_saved_download_is_listed(d: StoreView, x: PersistedDownloadView, confirmed: Set<Seq<char>>)
    requires
        !save_refused(d, x),
    ensures
        keep_rows(saved(d, x).downloads, visible_row(saved(d, x), confirmed)).contains(x),
{
    let n = saved(d, x);
    lemma_upsert_contains(d.downloads, x);
    lemma_keep_rows_contains(n.downloads, visible_row(n, confirmed), x);
}

/// Saving replaces: in a valid saved document every row with the saved
/// download's id is the saved record.
pub proof fn law_save_replaces_rows_of_the_same_download(d: StoreView, x: PersistedDownloadView)
    requires
        store_valid(saved(d, x)),
    ensures
        forall|i: int|
            0 <= i < saved(d, x).downloads.len() && #[trigger] saved(d, x).downloads[i].download_id == x.download_id
                ==> saved(d, x).downloads[i] == x,
{
    let rows = saved(d, x).downloads;
    lemma_upsert_contains(d.downloads, x);
    let j = choose|j: int| 0 <= j < rows.len() && rows[j] == x;
    assert forall|i: int| 0 <= i < rows.len() && #[trigger] rows[i].download_id == x.download_id implies rows[i] == x by {
        if i != j {
            assert(rows[i].download_id != rows[j].download_id);
        }
    }
}

/// After removal no row of the download remains.
pub proof fn law_removed_download_has_no_row(d: StoreView, id: Seq<char>)
    ensures
        forall|i: int| 0 <= i < removed(d, id).downloads.len() ==> #[trigger] removed(d, id).downloads[i].download_id != id,
{
    let rows = removed(d, id).downloads;
    assert forall|i: int| 0 <= i < rows.len() implies #[trigger] rows[i].download_id != id by {
        assert(rows.contains(rows[i]));
        lemma_keep_rows_contains(d.downloads, id_is_not(id), rows[i]);
    }
}

/// A revoked download's row is gone, its tombstone names the attempt, and
/// no later save of it is accepted.
pub proof fn law_revoked_download_cannot_be_saved(d: StoreView, id: Seq<char>, a: Seq<char>, x: PersistedDownloadView)
    requires
        x.download_id == id,
    ensures
        !row_has_id(revocation_intent(d, id, a).downloads, id),
        revocation_intent(d, id, a).recovery_revocations[id].attempt_id == a,
        save_refused(revocation_intent(d, id, a), x),
{
    law_removed_download_has_no_row(d, id);
    let rows = revocation_intent(d, id, a).downloads;
    assert(rows == removed(d, id).downloads);
    if row_has_id(rows, id) {
        let i = choose|i: int| 0 <= i < rows.len() && #[trigger] rows[i].download_id == id;
    }
}

/// A promoted admission is listed exactly when this process confirmed its
/// attempt (and no relocation parks it).
pub proof fn law_promoted_admission_is_listed_once_confirmed(
    d: StoreView,
    a: Seq<char>,
    req: AdmissionRequestView,
    pos: PositionView,
    confirmed: Set<Seq<char>>,
)
    requires
        !d.pending_relocations.dom().contains(req.snapshot.download_id),
    ensures
        keep_rows(
            admission_promoted(d, a, req, pos).downloads,
            visible_row(admission_promoted(d, a, req, pos), confirmed),
        ).contains(req.snapshot) == confirmed.contains(a),
{
    let n = admission_promoted(d, a, req, pos);
    assert(n.downloads[d.downloads.len() as int] == req.snapshot);
    lemma_keep_rows_contains(n.downloads, visible_row(n, confirmed), req.snapshot);
}

/// A new admission comes after every admission at its destination.
pub proof fn law_next_position_follows_every_admission(
    d: StoreView,
    dest: DestinationView,
    pos: DownloadAdmissionPosition,
    o: u64,
)
    requires
        next_position_ok(d, dest, Ok(pos)),
        has_slot(d, dest, o),
    ensures
        o < pos.ordinal,
{
    match pos.predecessor {
        None => {
            assert(crate::admission_queue::dest_used(d, dest));
        },
        Some(_) => {},
    }
}

/// A download whose admission is not confirmed here is hidden from listings.
pub proof fn law_unconfirmed_admissions_are_not_listed(d: StoreView, confirmed: Set<Seq<char>>, x: PersistedDownloadView)
    requires
        unconfirmed_queue(d, confirmed, x.download_id),
    ensures
        !keep_rows(d.downloads, visible_row(d, confirmed)).contains(x),
{
    lemma_keep_rows_contains(d.downloads, visible_row(d, confirmed), x);
}

/// A quarantine takes the download out of the ordinary rows.
pub proof fn law_quarantine_removes_the_row(
    d: StoreView,
    id: Seq<char>,
    snap: PersistedDownloadView,
    domain: LifecycleQuarantineDomain,
    sticky: bool,
    disp: PersistedLifecycleCleanupDisposition,
)
    ensures
        !row_has_id(fresh_quarantine(d, id, snap, domain, sticky, disp).downloads, id),
        fresh_quarantine(d, id, snap, domain, sticky, disp).lifecycle_quarantines.dom().contains(id),
{
    law_removed_download_has_no_row(d, id);
    let rows = fresh_quarantine(d, id, snap, domain, sticky, disp).downloads;
    assert(rows == removed(d, id).downloads);
    if row_has_id(rows, id) {
        let i = choose|i: int| 0 <= i < rows.len() && #[trigger] rows[i].download_id == id;
    }
}

/// Settling a queued admission keeps it as the released predecessor proof
/// and removes the ordinary row.
pub proof fn law_settlement_keeps_release_proof(d: StoreView, id: Seq<char>)
    requires
        d.queue_admissions.dom().contains(id),
    ensures
        !settled(d, id).queue_admissions.dom().contains(id),
        settled(d, id).released_queue_admissions[id] == d.queue_admissions[id],
        !row_has_id(settled(d, id).downloads, id),
{
    law_removed_download_has_no_row(d, id);
    let rows = settled(d, id).downloads;
    assert(rows == removed(d, id).downloads);
    if row_has_id(rows, id) {
        let i = choose|i: int| 0 <= i < rows.len() && #[trigger] rows[i].download_id == id;
    }
}

/// Marking skipped partial moves twice changes nothing more, and leaves no
/// row to mark.
pub proof fn law_marking_partial_moves_is_idempotent(rows: Seq<crate::migration::ItemView>)
    ensures
        marked_rows(marked_rows(rows)) == marked_rows(rows),
        forall|i: int| 0 <= i < rows.len() ==> !needs_mark(#[trigger] marked_rows(rows)[i]),
{
    assert(marked_rows(marked_rows(rows)) =~= marked_rows(rows));
}

/// A frame reads back as its payload.
pub proof fn law_frame_reads_back(payload: Seq<u8>, rest: Seq<u8>)
    requires
        payload.len() <= MAX_IPC_MESSAGE_SIZE,
    ensures
        read_outcome(frame(payload) + rest) == Ok::<Option<(Seq<u8>, nat)>, crate::publication::ErrorView>(
            Some((payload, (4 + payload.len()) as nat)),
        ),
{
    let n = payload.len() as u32;
    let input = frame(payload) + rest;
    assert(header_len(input) == n as nat) by {
        let b0 = (n >> 24u32) as u8;
        let b1 = (n >> 16u32) as u8;
        let b2 = (n >> 8u32) as u8;
        let b3 = n as u8;
        assert(input[0] == b0 && input[1] == b1 && input[2] == b2 && input[3] == b3);
        assert((b0 as u32) * 16777216u32 + (b1 as u32) * 65536u32 + (b2 as u32) * 256u32 + (b3 as u32) == n) by (bit_vector)
            requires
                b0 == (n >> 24u32) as u8,
                b1 == (n >> 16u32) as u8,
                b2 == (n >> 8u32) as u8,
                b3 == n as u8,
        ;
    }
    assert(input.subrange(4, 4 + payload.len() as int) =~= payload);
}

/// Two strictly sorted lists with the same members are equal.
pub proof fn lemma_sorted_lists_equal(a: Seq<Seq<char>>, b: Seq<Seq<char>>)
    requires
        strictly_sorted(a),
        strictly_sorted(b),
        forall|x: Seq<char>| #![trigger a.contains(x)] #![trigger b.contains(x)] a.contains(x) <==> b.contains(x),
    ensures
        a == b,
    decreases a.len(),
{
    if a.len() == 0 {
        if b.len() > 0 {
            assert(b.contains(b[0]));
            assert(a.contains(b[0]));
        }
        assert(a =~= b);
    } else {
        assert(a.contains(a[0]));
        assert(b.contains(a[0]));
        assert(b.len() > 0);
        assert(b.contains(b[0]));
        assert(a.contains(b[0]));
        let ia = choose|i: int| 0 <= i < b.len() && b[i] == a[0];
        let ib = choose|i: int| 0 <= i < a.len() && a[i] == b[0];
        if a[0] != b[0] {
            assert(ia > 0 && ib > 0);
            assert(seq_lt(b[0], b[ia]));
            assert(seq_lt(a[0], a[ib]));
            lemma_seq_lt_asymmetric(a[0], b[0]);
        }
        let a1 = a.drop_first();
        let b1 = b.drop_first();
        assert forall|x: Seq<char>| #![trigger a1.contains(x)] #![trigger b1.contains(x)] a1.contains(x) <==> b1.contains(x) by {
            if a1.contains(x) {
                let i = choose|i: int| 0 <= i < a1.len() && a1[i] == x;
                assert(a[i + 1] == x);
                assert(seq_lt(a[0], x));
                lemma_seq_lt_irreflexive(x);
                assert(b.contains(x));
                let j = choose|j: int| 0 <= j < b.len() && b[j] == x;
                assert(j != 0);
                assert(b1[j - 1] == x);
            }
            if b1.contains(x) {
                let i = choose|i: int| 0 <= i < b1.len() && b1[i] == x;
                assert(b[i + 1] == x);
                assert(seq_lt(b[0], x));
                lemma_seq_lt_irreflexive(x);
                assert(a.contains(x));
                let j = choose|j: int| 0 <= j < a.len() && a[j] == x;
                assert(j != 0);
                assert(a1[j - 1] == x);
            }
        }
        assert(strictly_sorted(a1)) by {
            assert forall|i: int, j: int| 0 <= i < j < a1.len() implies seq_lt(#[trigger] a1[i], #[trigger] a1[j]) by {
                assert(a1[i] == a[i + 1] && a1[j] == a[j + 1]);
            }
        }
        assert(strictly_sorted(b1)) by {
            assert forall|i: int, j: int| 0 <= i < j < b1.len() implies seq_lt(#[trigger] b1[i], #[trigger] b1[j]) by {
                assert(b1[i] == b[i + 1] && b1[j] == b[j + 1]);
            }
        }
        lemma_sorted_lists_equal(a1, b1);
        assert(a =~= seq![a[0]] + a1);
        assert(b =~= seq![b[0]] + b1);
    }
}

/// A ticket issued for a record verifies against the same record state:
/// verifying with its token finds the same repository and files.
pub proof fn law_issued_ticket_verifies(
    m: RecoveryMetadata,
    model_id: Seq<char>,
    p: RecoveryPlacement,
    q1: Result<Option<RecoveryRequest>, PumasError>,
    q2: Result<Option<RecoveryRequest>, PumasError>,
    r: Result<DownloadRecoveryVerification, PumasError>,
)
    requires
        request_outcome(m, q1),
        request_outcome(m, q2),
        q1 is Ok && q1.unwrap() is Some,
        verified(model_id, q2, Some(p), ticket_for(model_id, q1.unwrap().unwrap(), p).token, r),
    ensures
        r matches Ok(DownloadRecoveryVerification::Verified { repo_id, files }) && repo_id@
            == q1.unwrap().unwrap().repo_id@ && files.deep_view() == q1.unwrap().unwrap().files.deep_view(),
{
    let a = q1.unwrap().unwrap();
    let b = q2.unwrap().unwrap();
    let fa = a.files.deep_view();
    let fb = b.files.deep_view();
    assert forall|x: Seq<char>| #![trigger fa.contains(x)] #![trigger fb.contains(x)] fa.contains(x) <==> fb.contains(x) by {
        assert(fa.contains(x) == fb.contains(x));
    }
    lemma_sorted_lists_equal(fa, fb);
    assert(a.files@.len() == a.files.deep_view().len());
    assert(b.files@.len() == b.files.deep_view().len());
    assert(ticket_for(model_id, a, p) == ticket_for(model_id, b, p));
}

/// File order and repeated entries do not change a recovery ticket: two
/// records whose metadata agree except for the order and repetition of
/// their file lists read the same way and get the same ticket at the same
/// placement.
pub proof fn law_ticket_ignores_file_order_and_repeats(
    m1: RecoveryMetadata,
    m2: RecoveryMetadata,
    model_id: Seq<char>,
    p: RecoveryPlacement,
    q1: Result<Option<RecoveryRequest>, PumasError>,
    q2: Result<Option<RecoveryRequest>, PumasError>,
)
    requires
        request_outcome(m1, q1),
        request_outcome(m2, q2),
        m1.is_object == m2.is_object,
        m1.download_incomplete@ == m2.download_incomplete@,
        m1.repo_id@ == m2.repo_id@,
        m1.selected_artifact_id@ == m2.selected_artifact_id@,
        m1.selected_artifact_quant@ == m2.selected_artifact_quant@,
        file_list_ok(m1.selected_artifact_files@) == file_list_ok(m2.selected_artifact_files@),
        file_list_ok(m1.expected_files@) == file_list_ok(m2.expected_files@),
        file_list_members(m1.selected_artifact_files@) == file_list_members(m2.selected_artifact_files@),
        file_list_members(m1.expected_files@) == file_list_members(m2.expected_files@),
    ensures
        q1 is Ok <==> q2 is Ok,
        q1 matches Ok(None) <==> q2 matches Ok(None),
        q1 matches Ok(Some(a)) ==> (q2 matches Ok(Some(b)) && ticket_for(model_id, a, p) == ticket_for(model_id, b, p)),
{
    if q1 matches Ok(Some(_)) {
        let a = q1.unwrap().unwrap();
        let b = q2.unwrap().unwrap();
        let fa = a.files.deep_view();
        let fb = b.files.deep_view();
        assert forall|x: Seq<char>| #![trigger fa.contains(x)] #![trigger fb.contains(x)] fa.contains(x) <==> fb.contains(x) by {
            assert(fa.contains(x) == fb.contains(x));
        }
        lemma_sorted_lists_equal(fa, fb);
        assert(a.files@.len() == fa.len());
        assert(b.files@.len() == fb.len());
        assert(ticket_for(model_id, a, p) == ticket_for(model_id, b, p));
    }
}

/// A pending relocation parks both of its destinations and its download:
/// while it is pending, no admission may use either destination, and the
/// download's row can not be saved.
pub proof fn law_relocation_parks_both_destinations(
    d: StoreView,
    a: Seq<char>,
    id: Seq<char>,
    req: RelocationRequestView,
    x: PersistedDownloadView,
)
    requires
        x.download_id == id,
    ensures
        reserved_destination(relocation_intent(d, a, id, req), req.source),
        reserved_destination(relocation_intent(d, a, id, req), req.target),
        save_refused(relocation_intent(d, a, id, req), x),
{
    let n = relocation_intent(d, a, id, req);
    assert(n.pending_relocations.dom().contains(id));
    assert(n.pending_relocations[id].request == req);
}

/// Failure provenance is never downgraded: once a download's quarantine
/// records a sticky failure, every document that quarantining it again
/// publishes keeps the failure, whatever the new request says.
pub proof fn law_sticky_failure_is_never_downgraded(
    d: StoreView,
    snap: PersistedDownloadView,
    domain: LifecycleQuarantineDomain,
    sticky: bool,
)
    requires
        d.lifecycle_quarantines.dom().contains(snap.download_id),
        d.lifecycle_quarantines[snap.download_id].sticky_failure,
    ensures
        forall|i: int|
            0 <= i < quarantine_documents(d, snap, domain, sticky).len() ==> {
                let n = #[trigger] quarantine_documents(d, snap, domain, sticky)[i];
                n.lifecycle_quarantines.dom().contains(snap.download_id) && n.lifecycle_quarantines[snap.download_id].sticky_failure
            },
{
}

/// A claim released at a destination can be neither reserved again nor
/// restored as dormant there.
pub proof fn law_released_claim_never_returns(
    q: QueueView,
    id: Seq<char>,
    domain: DestinationDomain,
    g: u64,
    later: u64,
)
    requires
        release_step(q, id, domain, g) is Some,
    ensures
        ({
            let nq = release_step(q, id, domain, g).unwrap().0;
            &&& !reserve_step(nq, id, domain, later).0
            &&& reserve_step(nq, id, domain, later).1 == nq
            &&& !dormant_step(nq, id, domain).0
        }),
{
}

/// At most one download may act at a destination: only a claim that is
/// first in the queue gets its turn.
pub proof fn law_only_the_first_claim_acts(
    q: QueueView,
    a: Seq<char>,
    b: Seq<char>,
    da: DestinationDomain,
    db: DestinationDomain,
    ga: u64,
    gb: u64,
)
    requires
        a != b,
    ensures
        turn_of(q, a, da, ga) == Turn::Ready ==> claim_index(q.claims, a) == 0 && q.claims[0].download_id == a,
        !(turn_of(q, a, da, ga) == Turn::Ready && turn_of(q, b, db, gb) == Turn::Ready),
{
}

/// Reserving, restoring or promoting never reorders a queue: every
/// existing claim keeps its download at its position.
pub proof fn law_reservations_keep_queue_order(
    q: QueueView,
    id: Seq<char>,
    domain: DestinationDomain,
    promoted: DestinationDomain,
    g: u64,
)
    ensures
        forall|j: int|
            0 <= j < q.claims.len() ==> {
                &&& #[trigger] reserve_step(q, id, domain, g).1.claims[j].download_id == q.claims[j].download_id
                &&& dormant_step(q, id, domain).1.claims[j].download_id == q.claims[j].download_id
                &&& promote_step(q, id, domain, promoted, g).1.claims[j].download_id == q.claims[j].download_id
            },
        reserve_step(q, id, domain, g).1.claims.len() >= q.claims.len(),
        dormant_step(q, id, domain).1.claims.len() >= q.claims.len(),
        promote_step(q, id, domain, promoted, g).1.claims.len() == q.claims.len(),
{
    crate::destination_queue::lemma_claim_index_pub(q.claims, id);
}

/// Releasing the first claim hands the turn to the next claim, which is the
/// one to wake; releasing any other claim wakes nobody.
pub proof fn law_release_hands_the_turn_on(q: QueueView, id: Seq<char>, domain: DestinationDomain, g: u64)
    requires
        release_step(q, id, domain, g) is Some,
    ensures
        ({
            let (nq, wake) = release_step(q, id, domain, g).unwrap();
            &&& nq.claims.len() + 1 == q.claims.len()
            &&& wake is Some ==> q.claims[0].download_id == id && wake == Some(nq.claims[0].download_id)
                && nq.claims[0] == q.claims[1]
            &&& (q.claims[0].download_id == id && q.claims[0].domain == domain && q.claims[0].generation == Some(g)
                && q.claims.len() > 1) ==> wake == Some(q.claims[1].download_id)
        }),
{
    crate::destination_queue::lemma_match_index_pub(q.claims, id, domain, g);
}

/// Aborting a relocation undoes starting it: settling a fresh intent
/// without a move gives back the document it was started on, and settling
/// it after a move changes only the relocated row.
pub proof fn law_aborted_relocation_restores_the_document(
    d: StoreView,
    a: Seq<char>,
    id: Seq<char>,
    req: RelocationRequestView,
)
    requires
        !d.pending_relocations.dom().contains(id),
    ensures
        relocation_completed(relocation_intent(d, a, id, req), id, false) == d,
        relocation_completed(relocation_intent(d, a, id, req), id, true) == (StoreView {
            downloads: d.downloads.update(
                first_with_id(d.downloads, id),
                relocated_row(d.downloads[first_with_id(d.downloads, id)], req),
            ),
            ..d
        }),
{
    let n = relocation_intent(d, a, id, req);
    assert(n.pending_relocations.remove(id) =~= d.pending_relocations);
}

/// Issuing is canonical: two records whose metadata agree except for the
/// order and repetition of their file lists get the same answer at the same
/// placement, and, when they get tickets, the same ticket and token. In
/// particular, issuing again for an unchanged record gives the same token.
pub proof fn law_same_files_give_the_same_token(
    m1: RecoveryMetadata,
    m2: RecoveryMetadata,
    model_id: Seq<char>,
    placement: Option<RecoveryPlacement>,
    r1: Result<Option<DownloadRecoveryTicket>, PumasError>,
    r2: Result<Option<DownloadRecoveryTicket>, PumasError>,
)
    requires
        issue_outcome(model_id, m1, placement, r1),
        issue_outcome(model_id, m2, placement, r2),
        m1.is_object == m2.is_object,
        m1.download_incomplete@ == m2.download_incomplete@,
        m1.repo_id@ == m2.repo_id@,
        m1.selected_artifact_id@ == m2.selected_artifact_id@,
        m1.selected_artifact_quant@ == m2.selected_artifact_quant@,
        file_list_ok(m1.selected_artifact_files@) == file_list_ok(m2.selected_artifact_files@),
        file_list_ok(m1.expected_files@) == file_list_ok(m2.expected_files@),
        file_list_members(m1.selected_artifact_files@) == file_list_members(m2.selected_artifact_files@),
        file_list_members(m1.expected_files@) == file_list_members(m2.expected_files@),
    ensures
        r1 is Ok <==> r2 is Ok,
        r1 matches Ok(None) <==> r2 matches Ok(None),
        r1 matches Ok(Some(t1)) ==> (r2 matches Ok(Some(t2)) && t1@ == t2@ && t1@.token == t2@.token),
{
    let q1 = choose|q: Result<Option<RecoveryRequest>, PumasError>| request_outcome(m1, q) && #[trigger] issued(model_id, q, placement, r1);
    let q2 = choose|q: Result<Option<RecoveryRequest>, PumasError>| request_outcome(m2, q) && #[trigger] issued(model_id, q, placement, r2);
    let p = match placement {
        Some(p) => p,
        None => arbitrary(),
    };
    law_ticket_ignores_file_order_and_repeats(m1, m2, model_id, p, q1, q2);
}

/// A freshly issued token verifies against the same record state, giving the
/// ticket's repository and files; any other token is stale there.
pub proof fn law_issued_token_verifies_and_others_are_stale(
    m: RecoveryMetadata,
    model_id: Seq<char>,
    placement: Option<RecoveryPlacement>,
    issue: Result<Option<DownloadRecoveryTicket>, PumasError>,
    r: Result<DownloadRecoveryVerification, PumasError>,
    other: Seq<char>,
    r_other: Result<DownloadRecoveryVerification, PumasError>,
)
    requires
        issue_outcome(model_id, m, placement, issue),
        issue matches Ok(Some(_)),
        verify_outcome(model_id, m, placement, issue.unwrap().unwrap()@.token, r),
        verify_outcome(model_id, m, placement, other, r_other),
        other != issue.unwrap().unwrap()@.token,
    ensures
        r matches Ok(DownloadRecoveryVerification::Verified { repo_id, files }) && repo_id@
            == issue.unwrap().unwrap()@.repo_id && files.deep_view() == issue.unwrap().unwrap()@.selected_artifact_files,
        r_other matches Ok(DownloadRecoveryVerification::Stale),
{
    let t = issue.unwrap().unwrap();
    let q1 = choose|q: Result<Option<RecoveryRequest>, PumasError>| request_outcome(m, q) && #[trigger] issued(model_id, q, placement, issue);
    let p = placement.unwrap();
    let a = q1.unwrap().unwrap();
    assert(t@ == ticket_for(model_id, a, p));
    let q2 = choose|q: Result<Option<RecoveryRequest>, PumasError>| request_outcome(m, q) && #[trigger] verified(model_id, q, placement, t@.token, r);
    let q3 = choose|q: Result<Option<RecoveryRequest>, PumasError>| request_outcome(m, q) && #[trigger] verified(model_id, q, placement, other, r_other);
    law_ticket_ignores_file_order_and_repeats(m, m, model_id, p, q1, q2);
    law_ticket_ignores_file_order_and_repeats(m, m, model_id, p, q1, q3);
}

} // verus!
