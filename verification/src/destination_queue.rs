//! Per-destination FIFO serialization of download work.
//!
//! Each destination has an ordered queue of claims (a download, its domain,
//! and the task generation that holds it, if any) and the set of claims
//! already released there. Only the first claim of a queue may act; a
//! released claim can never come back.

use crate::recovery_ticket::{DestinationIdentity, FilesystemIdentity};
use vstd::prelude::*;

verus! {

/// Which lifecycle owns a download's claim.
#[derive(Clone, Copy, Debug, PartialEq, Eq, Structural)]
pub enum DestinationDomain {
    Ambient,
    Recovery,
}

/// One position in a destination queue. `generation` identifies the task
/// generation holding it; a dormant claim has none.
pub struct DestinationClaim {
    pub download_id: String,
    pub domain: DestinationDomain,
    pub generation: Option<u64>,
}

pub struct ClaimView {
    pub download_id: Seq<char>,
    pub domain: DestinationDomain,
    pub generation: Option<u64>,
}

impl View for DestinationClaim {
    type V = ClaimView;

    open spec fn view(&self) -> ClaimView {
        ClaimView { download_id: self.download_id@, domain: self.domain, generation: self.generation }
    }
}

pub open spec fn claims_view(v: Seq<DestinationClaim>) -> Seq<ClaimView> {
    v.map_values(|c: DestinationClaim| c@)
}

/// The claims of one destination and the claims released there.
pub struct QueueView {
    pub claims: Seq<ClaimView>,
    pub released: Set<(Seq<char>, DestinationDomain)>,
}

pub open spec fn empty_queue() -> QueueView {
    QueueView { claims: Seq::empty(), released: Set::empty() }
}

/// The key of a destination: its root's identity and relative path.
pub open spec fn dest_key(d: &DestinationIdentity) -> (FilesystemIdentity, Seq<char>) {
    (d.root, d.relative@)
}

/// Position of the first claim of `id`, or the queue length.
pub open spec fn claim_index(c: Seq<ClaimView>, id: Seq<char>) -> int
    decreases c.len(),
{
    if c.len() == 0 {
        0
    } else if c[0].download_id == id {
        0
    } else {
        1 + claim_index(c.drop_first(), id)
    }
}

/// The claim is held by exactly this download, domain and generation.
pub open spec fn claim_matches(c: ClaimView, id: Seq<char>, domain: DestinationDomain, g: u64) -> bool {
    c.download_id == id && c.domain == domain && c.generation == Some(g)
}

/// Position of the first claim matching exactly, or the queue length.
pub open spec fn match_index(c: Seq<ClaimView>, id: Seq<char>, domain: DestinationDomain, g: u64) -> int
    decreases c.len(),
{
    if c.len() == 0 {
        0
    } else if claim_matches(c[0], id, domain, g) {
        0
    } else {
        1 + match_index(c.drop_first(), id, domain, g)
    }
}

pub open spec fn with_claims(q: QueueView, claims: Seq<ClaimView>) -> QueueView {
    QueueView { claims, released: q.released }
}

/// Reserving a position for a live generation: refused once released or
/// when the download holds a claim of another domain; an existing claim is
/// handed to the new generation in place; otherwise the claim joins the end.
pub open spec fn reserve_step(q: QueueView, id: Seq<char>, domain: DestinationDomain, g: u64) -> (bool, QueueView) {
    let i = claim_index(q.claims, id);
    if q.released.contains((id, domain)) {
        (false, q)
    } else if i < q.claims.len() {
        if q.claims[i].domain != domain {
            (false, q)
        } else {
            (true, with_claims(q, q.claims.update(i, ClaimView { generation: Some(g), ..q.claims[i] })))
        }
    } else {
        (true, with_claims(q, q.claims.push(ClaimView { download_id: id, domain, generation: Some(g) })))
    }
}

/// Restoring a dormant claim: refused once released; an existing claim is
/// kept as it is (accepted when its domain matches); otherwise a claim
/// without a generation joins the end.
pub open spec fn dormant_step(q: QueueView, id: Seq<char>, domain: DestinationDomain) -> (bool, QueueView) {
    let i = claim_index(q.claims, id);
    if q.released.contains((id, domain)) {
        (false, q)
    } else if i < q.claims.len() {
        (q.claims[i].domain == domain, q)
    } else {
        (true, with_claims(q, q.claims.push(ClaimView { download_id: id, domain, generation: None })))
    }
}

/// Moving a claim from one domain to another under a new generation.
pub open spec fn promote_step(
    q: QueueView,
    id: Seq<char>,
    expected: DestinationDomain,
    promoted: DestinationDomain,
    g: u64,
) -> (bool, QueueView) {
    let i = claim_index(q.claims, id);
    if i < q.claims.len() && q.claims[i].domain == expected {
        (true, with_claims(q, q.claims.update(i, ClaimView { download_id: id, domain: promoted, generation: Some(g) })))
    } else {
        (false, q)
    }
}

/// What a claimant learns when it asks for its turn.
#[derive(Clone, Copy, Debug, PartialEq, Eq, Structural)]
pub enum Turn {
    /// The claim is gone or held by another domain or generation.
    Lost,
    /// The claim is first: the claimant may act.
    Ready,
    /// Wait for the claim ahead to be released.
    Wait,
}

pub open spec fn turn_of(q: QueueView, id: Seq<char>, domain: DestinationDomain, g: u64) -> Turn {
    let i = claim_index(q.claims, id);
    if i >= q.claims.len() || !claim_matches(q.claims[i], id, domain, g) {
        Turn::Lost
    } else if i == 0 {
        Turn::Ready
    } else {
        Turn::Wait
    }
}

/// Releasing an exactly matching claim: it leaves the queue and is recorded
/// as released; when it was first, the new first claimant is to be woken.
pub open spec fn release_step(q: QueueView, id: Seq<char>, domain: DestinationDomain, g: u64) -> Option<
    (QueueView, Option<Seq<char>>),
> {
    let i = match_index(q.claims, id, domain, g);
    if i >= q.claims.len() {
        None
    } else {
        let claims = q.claims.remove(i);
        Some(
            (
                QueueView { claims, released: q.released.insert((id, domain)) },
                if i == 0 && claims.len() > 0 {
                    Some(claims[0].download_id)
                } else {
                    None
                },
            ),
        )
    }
}

/// A legacy relocation owns both names: refused for one destination, when
/// the target has claims, or when the source's first claim belongs to
/// another download or domain or the download was released there. Then
/// the source's first claim (or a new one) and a new last target claim are
/// held by the generation, and the target forgets the download's release.
pub open spec fn relocation_step(source: QueueView, target: QueueView, same: bool, id: Seq<char>, g: u64) -> Option<
    (QueueView, QueueView),
> {
    let held = ClaimView { download_id: id, domain: DestinationDomain::Ambient, generation: Some(g) };
    if same || target.claims.len() > 0 {
        None
    } else if (source.claims.len() > 0 && (source.claims[0].download_id != id || source.claims[0].domain
        != DestinationDomain::Ambient)) || source.released.contains((id, DestinationDomain::Ambient)) {
        None
    } else {
        let s = if source.claims.len() > 0 {
            with_claims(source, source.claims.update(0, ClaimView { generation: Some(g), ..source.claims[0] }))
        } else {
            with_claims(source, seq![held])
        };
        Some(
            (
                s,
                QueueView {
                    claims: target.claims.push(held),
                    released: target.released.remove((id, DestinationDomain::Ambient)),
                },
            ),
        )
    }
}

/// The queue of one destination.
pub struct DestinationQueue {
    pub root: FilesystemIdentity,
    pub relative: String,
    pub claims: Vec<DestinationClaim>,
    pub released: Vec<(String, DestinationDomain)>,
}

pub open spec fn released_set(v: Seq<(String, DestinationDomain)>) -> Set<(Seq<char>, DestinationDomain)> {
    Set::new(|p: (Seq<char>, DestinationDomain)| exists|i: int| 0 <= i < v.len() && #[trigger] v[i].0@ == p.0 && v[i].1 == p.1)
}

impl View for DestinationQueue {
    type V = QueueView;

    open spec fn view(&self) -> QueueView {
        QueueView { claims: claims_view(self.claims@), released: released_set(self.released@) }
    }
}

/// Position of the first queue of the destination, or the count.
pub open spec fn queue_index(qs: Seq<DestinationQueue>, key: (FilesystemIdentity, Seq<char>)) -> int
    decreases qs.len(),
{
    if qs.len() == 0 {
        0
    } else if qs[0].root == key.0 && qs[0].relative@ == key.1 {
        0
    } else {
        1 + queue_index(qs.drop_first(), key)
    }
}

/// The queue of a destination; a destination never used has an empty one.
pub open spec fn queue_in(qs: Seq<DestinationQueue>, key: (FilesystemIdentity, Seq<char>)) -> QueueView {
    let i = queue_index(qs, key);
    if i < qs.len() {
        qs[i]@
    } else {
        empty_queue()
    }
}

/// The first claim of a download, and no earlier one.
pub proof fn lemma_claim_index_pub(c: Seq<ClaimView>, id: Seq<char>)
    ensures
        0 <= claim_index(c, id) <= c.len(),
        claim_index(c, id) < c.len() ==> c[claim_index(c, id)].download_id == id,
        forall|j: int| 0 <= j < claim_index(c, id) ==> #[trigger] c[j].download_id != id,
{
    lemma_claim_index(c, id);
}

/// The first exactly matching claim, and no earlier one.
pub proof fn lemma_match_index_pub(c: Seq<ClaimView>, id: Seq<char>, domain: DestinationDomain, g: u64)
    ensures
        0 <= match_index(c, id, domain, g) <= c.len(),
        match_index(c, id, domain, g) < c.len() ==> claim_matches(c[match_index(c, id, domain, g)], id, domain, g),
        forall|j: int| 0 <= j < match_index(c, id, domain, g) ==> !claim_matches(#[trigger] c[j], id, domain, g),
{
    lemma_match_index(c, id, domain, g);
}

proof fn lemma_claim_index(c: Seq<ClaimView>, id: Seq<char>)
    ensures
        0 <= claim_index(c, id) <= c.len(),
        claim_index(c, id) < c.len() ==> c[claim_index(c, id)].download_id == id,
        forall|j: int| 0 <= j < claim_index(c, id) ==> #[trigger] c[j].download_id != id,
    decreases c.len(),
{
    if c.len() > 0 && c[0].download_id != id {
        lemma_claim_index(c.drop_first(), id);
        assert forall|j: int| 0 <= j < claim_index(c, id) implies #[trigger] c[j].download_id != id by {
            if j > 0 {
                assert(c[j] == c.drop_first()[j - 1]);
            }
        }
    }
}

proof fn lemma_match_index(c: Seq<ClaimView>, id: Seq<char>, domain: DestinationDomain, g: u64)
    ensures
        0 <= match_index(c, id, domain, g) <= c.len(),
        match_index(c, id, domain, g) < c.len() ==> claim_matches(c[match_index(c, id, domain, g)], id, domain, g),
        forall|j: int| 0 <= j < match_index(c, id, domain, g) ==> !claim_matches(#[trigger] c[j], id, domain, g),
    decreases c.len(),
{
    if c.len() > 0 && !claim_matches(c[0], id, domain, g) {
        lemma_match_index(c.drop_first(), id, domain, g);
        assert forall|j: int| 0 <= j < match_index(c, id, domain, g) implies !claim_matches(#[trigger] c[j], id, domain, g) by {
            if j > 0 {
                assert(c[j] == c.drop_first()[j - 1]);
            }
        }
    }
}

proof fn lemma_queue_index(qs: Seq<DestinationQueue>, key: (FilesystemIdentity, Seq<char>))
    ensures
        0 <= queue_index(qs, key) <= qs.len(),
        queue_index(qs, key) < qs.len() ==> qs[queue_index(qs, key)].root == key.0 && qs[queue_index(qs, key)].relative@
            == key.1,
        forall|j: int| 0 <= j < queue_index(qs, key) ==> !(#[trigger] qs[j].root == key.0 && qs[j].relative@ == key.1),
    decreases qs.len(),
{
    if qs.len() > 0 && !(qs[0].root == key.0 && qs[0].relative@ == key.1) {
        lemma_queue_index(qs.drop_first(), key);
        assert forall|j: int| 0 <= j < queue_index(qs, key) implies !(#[trigger] qs[j].root == key.0 && qs[j].relative@ == key.1) by {
            if j > 0 {
                assert(qs[j] == qs.drop_first()[j - 1]);
            }
        }
    }
}

/// A first index is the first position satisfying its test.
proof fn lemma_queue_index_is(qs: Seq<DestinationQueue>, key: (FilesystemIdentity, Seq<char>), i: int)
    requires
        0 <= i <= qs.len(),
        i < qs.len() ==> qs[i].root == key.0 && qs[i].relative@ == key.1,
        forall|j: int| 0 <= j < i ==> !(#[trigger] qs[j].root == key.0 && qs[j].relative@ == key.1),
    ensures
        queue_index(qs, key) == i,
    decreases qs.len(),
{
    lemma_queue_index(qs, key);
    let k = queue_index(qs, key);
    if k < i {
        assert(!(qs[k].root == key.0 && qs[k].relative@ == key.1));
    } else if i < k {
        assert(!(qs[i].root == key.0 && qs[i].relative@ == key.1));
    }
}

/// Replacing the queue at `i` (the first of its destination) changes only
/// that destination's queue.
proof fn lemma_queue_replaced(qs: Seq<DestinationQueue>, i: int, nq: DestinationQueue)
    requires
        0 <= i < qs.len(),
        nq.root == qs[i].root,
        nq.relative@ == qs[i].relative@,
        queue_index(qs, (qs[i].root, qs[i].relative@)) == i,
    ensures
        forall|d: (FilesystemIdentity, Seq<char>)| #[trigger] queue_in(qs.update(i, nq), d) == if d == (
            qs[i].root,
            qs[i].relative@,
        ) {
            nq@
        } else {
            queue_in(qs, d)
        },
{
    let n = qs.update(i, nq);
    assert forall|d: (FilesystemIdentity, Seq<char>)| #[trigger] queue_in(n, d) == if d == (
        qs[i].root,
        qs[i].relative@,
    ) {
        nq@
    } else {
        queue_in(qs, d)
    } by {
        lemma_queue_index(qs, d);
        let k = queue_index(qs, d);
        assert forall|j: int| 0 <= j < k implies !(#[trigger] n[j].root == d.0 && n[j].relative@ == d.1) by {
            assert(!(qs[j].root == d.0 && qs[j].relative@ == d.1));
            if j == i {
                assert(n[j].root == qs[j].root && n[j].relative@ == qs[j].relative@);
            }
        }
        if k < qs.len() {
            assert(n[k].root == d.0 && n[k].relative@ == d.1);
        }
        lemma_queue_index_is(n, d, k);
        if d == (qs[i].root, qs[i].relative@) {
            lemma_queue_index(qs, (qs[i].root, qs[i].relative@));
        } else if k == i {
            assert(qs[i].root == d.0 && qs[i].relative@ == d.1);
        }
    }
}

proof fn lemma_claim_index_is(c: Seq<ClaimView>, id: Seq<char>, i: int)
    requires
        0 <= i <= c.len(),
        i < c.len() ==> c[i].download_id == id,
        forall|j: int| 0 <= j < i ==> #[trigger] c[j].download_id != id,
    ensures
        claim_index(c, id) == i,
{
    lemma_claim_index(c, id);
    let k = claim_index(c, id);
    if k < i {
        assert(c[k].download_id != id);
    } else if i < k {
        assert(c[i].download_id != id);
    }
}

proof fn lemma_match_index_is(c: Seq<ClaimView>, id: Seq<char>, domain: DestinationDomain, g: u64, i: int)
    requires
        0 <= i <= c.len(),
        i < c.len() ==> claim_matches(c[i], id, domain, g),
        forall|j: int| 0 <= j < i ==> !claim_matches(#[trigger] c[j], id, domain, g),
    ensures
        match_index(c, id, domain, g) == i,
{
    lemma_match_index(c, id, domain, g);
    let k = match_index(c, id, domain, g);
    if k < i {
        assert(!claim_matches(c[k], id, domain, g));
    } else if i < k {
        assert(!claim_matches(c[i], id, domain, g));
    }
}

fn find_claim(claims: &Vec<DestinationClaim>, id: &str) -> (r: usize)
    ensures
        r == claim_index(claims_view(claims@), id@),
        r <= claims@.len(),
{
    let ghost cv = claims_view(claims@);
    let owned = id.to_owned();
    let mut i: usize = 0;
    while i < claims.len()
        invariant
            cv == claims_view(claims@),
            owned@ == id@,
            i <= claims@.len(),
            forall|j: int| 0 <= j < i ==> #[trigger] cv[j].download_id != id@,
        decreases claims.len() - i,
    {
        if claims[i].download_id == owned {
            proof {
                lemma_claim_index_is(cv, id@, i as int);
            }
            return i;
        }
        i = i + 1;
    }
    proof {
        lemma_claim_index_is(cv, id@, i as int);
    }
    i
}

fn find_match(claims: &Vec<DestinationClaim>, id: &str, domain: DestinationDomain, g: u64) -> (r: usize)
    ensures
        r == match_index(claims_view(claims@), id@, domain, g),
        r <= claims@.len(),
{
    let ghost cv = claims_view(claims@);
    let owned = id.to_owned();
    let mut i: usize = 0;
    while i < claims.len()
        invariant
            cv == claims_view(claims@),
            owned@ == id@,
            i <= claims@.len(),
            forall|j: int| 0 <= j < i ==> !claim_matches(#[trigger] cv[j], id@, domain, g),
        decreases claims.len() - i,
    {
        let c = &claims[i];
        let held = match c.generation {
            Some(x) => x == g,
            None => false,
        };
        if c.download_id == owned && c.domain == domain && held {
            proof {
                lemma_match_index_is(cv, id@, domain, g, i as int);
            }
            return i;
        }
        i = i + 1;
    }
    proof {
        lemma_match_index_is(cv, id@, domain, g, i as int);
    }
    i
}

fn released_contains(released: &Vec<(String, DestinationDomain)>, id: &str, domain: DestinationDomain) -> (r: bool)
    ensures
        r == released_set(released@).contains((id@, domain)),
{
    let owned = id.to_owned();
    let mut i: usize = 0;
    while i < released.len()
        invariant
            owned@ == id@,
            i <= released@.len(),
            forall|j: int| 0 <= j < i ==> !(#[trigger] released@[j].0@ == id@ && released@[j].1 == domain),
        decreases released.len() - i,
    {
        if released[i].0 == owned && released[i].1 == domain {
            assert(released@[i as int].0@ == id@ && released@[i as int].1 == domain);
            return true;
        }
        i = i + 1;
    }
    false
}

fn released_remove(released: &mut Vec<(String, DestinationDomain)>, id: &str, domain: DestinationDomain)
    ensures
        released_set(final(released)@) == released_set(old(released)@).remove((id@, domain)),
{
    let ghost before = released@;
    let owned = id.to_owned();
    let mut kept: Vec<(String, DestinationDomain)> = Vec::new();
    let mut i: usize = 0;
    while i < released.len()
        invariant
            owned@ == id@,
            released@ == before,
            i <= before.len(),
            forall|p: (Seq<char>, DestinationDomain)| #[trigger] released_set(kept@).contains(p) <==> (p != (id@, domain)
                && exists|j: int| 0 <= j < i && #[trigger] before[j].0@ == p.0 && before[j].1 == p.1),
        decreases released.len() - i,
    {
        let e = &released[i];
        if !(e.0 == owned && e.1 == domain) {
            let ghost k0 = kept@;
            kept.push((e.0.clone(), e.1));
            proof {
                assert forall|p: (Seq<char>, DestinationDomain)| #[trigger] released_set(kept@).contains(p) <==> (p != (id@, domain)
                    && exists|j: int| 0 <= j < i + 1 && #[trigger] before[j].0@ == p.0 && before[j].1 == p.1) by {
                    if released_set(kept@).contains(p) {
                        let w = choose|w: int| 0 <= w < kept@.len() && #[trigger] kept@[w].0@ == p.0 && kept@[w].1 == p.1;
                        if w < k0.len() {
                            assert(k0[w] == kept@[w]);
                            assert(released_set(k0).contains(p));
                        } else {
                            assert(before[i as int].0@ == p.0 && before[i as int].1 == p.1);
                        }
                    }
                    if p != (id@, domain) && exists|j: int| 0 <= j < i + 1 && #[trigger] before[j].0@ == p.0 && before[j].1 == p.1 {
                        let j = choose|j: int| 0 <= j < i + 1 && #[trigger] before[j].0@ == p.0 && before[j].1 == p.1;
                        if j < i {
                            assert(released_set(k0).contains(p));
                            let w = choose|w: int| 0 <= w < k0.len() && #[trigger] k0[w].0@ == p.0 && k0[w].1 == p.1;
                            assert(kept@[w] == k0[w]);
                        } else {
                            assert(kept@[k0.len() as int].0@ == p.0 && kept@[k0.len() as int].1 == p.1);
                        }
                    }
                }
            }
        } else {
            proof {
                assert forall|p: (Seq<char>, DestinationDomain)| #[trigger] released_set(kept@).contains(p) <==> (p != (id@, domain)
                    && exists|j: int| 0 <= j < i + 1 && #[trigger] before[j].0@ == p.0 && before[j].1 == p.1) by {
                    if p != (id@, domain) && exists|j: int| 0 <= j < i + 1 && #[trigger] before[j].0@ == p.0 && before[j].1 == p.1 {
                        let j = choose|j: int| 0 <= j < i + 1 && #[trigger] before[j].0@ == p.0 && before[j].1 == p.1;
                        if j == i {
                            assert(p == (id@, domain));
                        }
                    }
                }
            }
        }
        i = i + 1;
    }
    *released = kept;
    assert(released_set(released@) =~= released_set(before).remove((id@, domain)));
}

/// In-process serialization of the work at each destination.
pub struct DestinationExecutionOwner {
    queues: Vec<DestinationQueue>,
}

impl DestinationExecutionOwner {
    /// The queue of a destination.
    pub closed spec fn queue(&self, key: (FilesystemIdentity, Seq<char>)) -> QueueView {
        queue_in(self.queues@, key)
    }

    pub fn new() -> (o: Self)
        ensures
            forall|d: (FilesystemIdentity, Seq<char>)| #[trigger] o.queue(d) == empty_queue(),
    {
        let o = DestinationExecutionOwner { queues: Vec::new() };
        assert forall|d: (FilesystemIdentity, Seq<char>)| #[trigger] o.queue(d) == empty_queue() by {
            lemma_queue_index(o.queues@, d);
        }
        o
    }

    fn find_queue(&self, dest: &DestinationIdentity) -> (r: Option<usize>)
        ensures
            match r {
                Some(i) => i < self.queues@.len() && i == queue_index(self.queues@, dest_key(dest)),
                None => queue_index(self.queues@, dest_key(dest)) == self.queues@.len(),
            },
    {
        let mut i: usize = 0;
        while i < self.queues.len()
            invariant
                i <= self.queues@.len(),
                forall|j: int| 0 <= j < i ==> !(#[trigger] self.queues@[j].root == dest.root && self.queues@[j].relative@ == dest.relative@),
            decreases self.queues.len() - i,
        {
            if self.queues[i].root == dest.root && self.queues[i].relative == dest.relative {
                proof {
                    lemma_queue_index_is(self.queues@, dest_key(dest), i as int);
                }
                return Some(i);
            }
            i = i + 1;
        }
        proof {
            lemma_queue_index_is(self.queues@, dest_key(dest), i as int);
        }
        None
    }

    /// The position of the destination's queue, created empty when absent;
    /// no destination's queue changes.
    fn queue_position(&mut self, dest: &DestinationIdentity) -> (i: usize)
        ensures
            i < final(self).queues@.len(),
            i == queue_index(final(self).queues@, dest_key(dest)),
            forall|d: (FilesystemIdentity, Seq<char>)| #[trigger] final(self).queue(d) == old(self).queue(d),
    {
        match self.find_queue(dest) {
            Some(i) => i,
            None => {
                let ghost before = self.queues@;
                let i = self.queues.len();
                self.queues.push(
                    DestinationQueue { root: dest.root, relative: dest.relative.clone(), claims: Vec::new(), released: Vec::new() },
                );
                proof {
                    let after = self.queues@;
                    lemma_queue_index(before, dest_key(dest));
                    assert forall|j: int| 0 <= j < i implies !(#[trigger] after[j].root == dest.root && after[j].relative@ == dest.relative@) by {
                        assert(after[j] == before[j]);
                    }
                    lemma_queue_index_is(after, dest_key(dest), i as int);
                    assert forall|d: (FilesystemIdentity, Seq<char>)| #[trigger] queue_in(after, d) == queue_in(before, d) by {
                        lemma_queue_index(before, d);
                        let k = queue_index(before, d);
                        assert forall|j: int| 0 <= j < k implies !(#[trigger] after[j].root == d.0 && after[j].relative@ == d.1) by {
                            assert(after[j] == before[j]);
                        }
                        if k < before.len() {
                            assert(after[k] == before[k]);
                            lemma_queue_index_is(after, d, k);
                        } else if d == dest_key(dest) {
                            assert(claims_view(after[i as int].claims@) =~= Seq::<ClaimView>::empty());
                            assert(released_set(after[i as int].released@) =~= Set::<(Seq<char>, DestinationDomain)>::empty());
                        } else {
                            assert(!(after[k].root == d.0 && after[k].relative@ == d.1));
                            lemma_queue_index_is(after, d, k + 1);
                        }
                    }
                }
                i
            },
        }
    }

    /// Put a queue back at the position it was taken from.
    fn put_back(&mut self, i: usize, q: DestinationQueue, Ghost(before): Ghost<Seq<DestinationQueue>>)
        requires
            i < before.len(),
            old(self).queues@ == before.remove(i as int),
            q.root == before[i as int].root,
            q.relative@ == before[i as int].relative@,
            queue_index(before, (before[i as int].root, before[i as int].relative@)) == i,
        ensures
            forall|d: (FilesystemIdentity, Seq<char>)| #[trigger] final(self).queue(d) == if d == (
                before[i as int].root,
                before[i as int].relative@,
            ) {
                q@
            } else {
                queue_in(before, d)
            },
    {
        let ghost qv = q;
        self.queues.insert(i, q);
        proof {
            assert(self.queues@ =~= before.update(i as int, qv));
            lemma_queue_replaced(before, i as int, qv);
        }
    }

    /// Take the destination's queue out (created empty when absent).
    fn take_queue(&mut self, dest: &DestinationIdentity) -> (r: (usize, DestinationQueue, Ghost<Seq<DestinationQueue>>))
        ensures
            ({
                let (i, q, before) = r;
                &&& i < before@.len()
                &&& final(self).queues@ == before@.remove(i as int)
                &&& q == before@[i as int]
                &&& q.root == dest.root
                &&& q.relative@ == dest.relative@
                &&& queue_index(before@, dest_key(dest)) == i
                &&& q@ == old(self).queue(dest_key(dest))
                &&& forall|d: (FilesystemIdentity, Seq<char>)| #[trigger] queue_in(before@, d) == old(self).queue(d)
            }),
    {
        let i = self.queue_position(dest);
        let ghost before = self.queues@;
        proof {
            lemma_queue_index(before, dest_key(dest));
            assert forall|d: (FilesystemIdentity, Seq<char>)| #[trigger] queue_in(before, d) == old(self).queue(d) by {
                assert(queue_in(before, d) == self.queue(d));
            }
        }
        let q = self.queues.remove(i);
        proof {
            assert(q == before[i as int]);
            assert(q@ == queue_in(before, dest_key(dest)));
        }
        (i, q, Ghost(before))
    }

    /// Reserve the download's position for a live generation.
    pub fn reserve(&mut self, dest: &DestinationIdentity, download_id: String, domain: DestinationDomain, generation: u64) -> (r: bool)
        ensures
            r == reserve_step(old(self).queue(dest_key(dest)), download_id@, domain, generation).0,
            forall|d: (FilesystemIdentity, Seq<char>)| #[trigger] final(self).queue(d) == if d == dest_key(dest) {
                reserve_step(old(self).queue(dest_key(dest)), download_id@, domain, generation).1
            } else {
                old(self).queue(d)
            },
    {
        let (i, mut q, before) = self.take_queue(dest);
        let ghost q0 = q@;
        let ghost id = download_id@;
        let ok = if released_contains(&q.released, download_id.as_str(), domain) {
            false
        } else {
            let j = find_claim(&q.claims, download_id.as_str());
            if j < q.claims.len() {
                if q.claims[j].domain != domain {
                    false
                } else {
                    let mut c = q.claims.remove(j);
                    c.generation = Some(generation);
                    q.claims.insert(j, c);
                    proof {
                        assert(claims_view(q.claims@) =~= q0.claims.update(j as int, ClaimView { generation: Some(generation), ..q0.claims[j as int] }));
                    }
                    true
                }
            } else {
                q.claims.push(DestinationClaim { download_id, domain, generation: Some(generation) });
                proof {
                    assert(claims_view(q.claims@) =~= q0.claims.push(ClaimView { download_id: id, domain, generation: Some(generation) }));
                }
                true
            }
        };
        assert(q@ == reserve_step(q0, id, domain, generation).1);
        self.put_back(i, q, before);
        ok
    }

    /// Restore the position of resumable state that has no live generation.
    pub fn reserve_dormant(&mut self, dest: &DestinationIdentity, download_id: String, domain: DestinationDomain) -> (r: bool)
        ensures
            r == dormant_step(old(self).queue(dest_key(dest)), download_id@, domain).0,
            forall|d: (FilesystemIdentity, Seq<char>)| #[trigger] final(self).queue(d) == if d == dest_key(dest) {
                dormant_step(old(self).queue(dest_key(dest)), download_id@, domain).1
            } else {
                old(self).queue(d)
            },
    {
        let (i, mut q, before) = self.take_queue(dest);
        let ghost q0 = q@;
        let ghost id = download_id@;
        let ok = if released_contains(&q.released, download_id.as_str(), domain) {
            false
        } else {
            let j = find_claim(&q.claims, download_id.as_str());
            if j < q.claims.len() {
                q.claims[j].domain == domain
            } else {
                q.claims.push(DestinationClaim { download_id, domain, generation: None });
                proof {
                    assert(claims_view(q.claims@) =~= q0.claims.push(ClaimView { download_id: id, domain, generation: None }));
                }
                true
            }
        };
        assert(q@ == dormant_step(q0, id, domain).1);
        self.put_back(i, q, before);
        ok
    }

    /// Move the download's claim from `expected` to `promoted` under a new
    /// generation.
    pub fn promote_domain(
        &mut self,
        dest: &DestinationIdentity,
        download_id: &str,
        expected: DestinationDomain,
        promoted: DestinationDomain,
        generation: u64,
    ) -> (r: bool)
        ensures
            r == promote_step(old(self).queue(dest_key(dest)), download_id@, expected, promoted, generation).0,
            forall|d: (FilesystemIdentity, Seq<char>)| #[trigger] final(self).queue(d) == if d == dest_key(dest) {
                promote_step(old(self).queue(dest_key(dest)), download_id@, expected, promoted, generation).1
            } else {
                old(self).queue(d)
            },
    {
        let (i, mut q, before) = self.take_queue(dest);
        let ghost q0 = q@;
        let j = find_claim(&q.claims, download_id);
        proof {
            lemma_claim_index(q0.claims, download_id@);
        }
        let ok = if j < q.claims.len() && q.claims[j].domain == expected {
            let mut c = q.claims.remove(j);
            c.domain = promoted;
            c.generation = Some(generation);
            q.claims.insert(j, c);
            proof {
                assert(claims_view(q.claims@) =~= q0.claims.update(
                    j as int,
                    ClaimView { download_id: download_id@, domain: promoted, generation: Some(generation) },
                ));
            }
            true
        } else {
            false
        };
        assert(q@ == promote_step(q0, download_id@, expected, promoted, generation).1);
        self.put_back(i, q, before);
        ok
    }

    /// Whether the claimant may act now, must wait, or has lost its claim.
    pub fn turn(&self, dest: &DestinationIdentity, download_id: &str, domain: DestinationDomain, generation: u64) -> (t: Turn)
        ensures
            t == turn_of(self.queue(dest_key(dest)), download_id@, domain, generation),
    {
        match self.find_queue(dest) {
            None => {
                proof {
                    lemma_queue_index(self.queues@, dest_key(dest));
                }
                Turn::Lost
            },
            Some(i) => {
                let q = &self.queues[i];
                let j = find_claim(&q.claims, download_id);
                proof {
                    lemma_claim_index(q@.claims, download_id@);
                }
                if j >= q.claims.len() {
                    return Turn::Lost;
                }
                let c = &q.claims[j];
                let held = match c.generation {
                    Some(x) => x == generation,
                    None => false,
                };
                if !(c.domain == domain && held) {
                    Turn::Lost
                } else if j == 0 {
                    Turn::Ready
                } else {
                    Turn::Wait
                }
            },
        }
    }
}

/// A release and the claimant it makes first, who is to be woken.
pub struct DestinationRelease {
    pub wake: Option<String>,
}

impl DestinationExecutionOwner {
    /// Release an exactly matching claim; `None` when there is none.
    pub fn release(&mut self, dest: &DestinationIdentity, download_id: &str, domain: DestinationDomain, generation: u64) -> (r: Option<DestinationRelease>)
        ensures
            match release_step(old(self).queue(dest_key(dest)), download_id@, domain, generation) {
                None => r is None && forall|d: (FilesystemIdentity, Seq<char>)| #[trigger] final(self).queue(d) == old(self).queue(d),
                Some((nq, wake)) => r matches Some(x) && x.wake.deep_view() == wake
                    && forall|d: (FilesystemIdentity, Seq<char>)| #[trigger] final(self).queue(d) == if d == dest_key(dest) {
                        nq
                    } else {
                        old(self).queue(d)
                    },
            },
    {
        let (i, mut q, before) = self.take_queue(dest);
        let ghost q0 = q@;
        let j = find_match(&q.claims, download_id, domain, generation);
        if j >= q.claims.len() {
            self.put_back(i, q, before);
            return None;
        }
        q.claims.remove(j);
        let ghost r0 = q.released@;
        q.released.push((download_id.to_owned(), domain));
        let ghost nclaims = q0.claims.remove(j as int);
        proof {
            assert(claims_view(q.claims@) =~= nclaims);
            assert(released_set(q.released@) =~= q0.released.insert((download_id@, domain))) by {
                let r = q.released@;
                assert forall|p: (Seq<char>, DestinationDomain)| #[trigger] released_set(r).contains(p) == q0.released.insert((download_id@, domain)).contains(p) by {
                    if released_set(r).contains(p) {
                        let w = choose|w: int| 0 <= w < r.len() && #[trigger] r[w].0@ == p.0 && r[w].1 == p.1;
                        if w < r0.len() {
                            assert(r[w] == r0[w]);
                            assert(released_set(r0).contains(p));
                        }
                    }
                    if q0.released.contains(p) {
                        assert(q0.released == released_set(r0));
                        let w = choose|w: int| 0 <= w < r0.len() && #[trigger] r0[w].0@ == p.0 && r0[w].1 == p.1;
                        assert(r[w] == r0[w]);
                    }
                    if p == (download_id@, domain) {
                        assert(r[r.len() - 1].0@ == p.0);
                    }
                }
            }
        }
        let wake = if j == 0 && q.claims.len() > 0 {
            Some(q.claims[0].download_id.clone())
        } else {
            None
        };
        self.put_back(i, q, before);
        Some(DestinationRelease { wake })
    }

    /// Hold both names of a legacy relocation for one generation.
    pub fn reserve_relocation(
        &mut self,
        source: &DestinationIdentity,
        target: &DestinationIdentity,
        download_id: String,
        generation: u64,
    ) -> (r: bool)
        ensures
            match relocation_step(
                old(self).queue(dest_key(source)),
                old(self).queue(dest_key(target)),
                dest_key(source) == dest_key(target),
                download_id@,
                generation,
            ) {
                None => !r && forall|d: (FilesystemIdentity, Seq<char>)| #[trigger] final(self).queue(d) == old(self).queue(d),
                Some((ns, nt)) => r && forall|d: (FilesystemIdentity, Seq<char>)| #[trigger] final(self).queue(d) == if d
                    == dest_key(source) {
                    ns
                } else if d == dest_key(target) {
                    nt
                } else {
                    old(self).queue(d)
                },
            },
    {
        let ghost sk = dest_key(source);
        let ghost tk = dest_key(target);
        let ghost s0 = self.queue(sk);
        let ghost t0 = self.queue(tk);
        let ghost id = download_id@;
        if source.root == target.root && source.relative == target.relative {
            return false;
        }
        if self.claim_count(target) > 0 {
            return false;
        }
        let blocked = match self.find_queue(source) {
            None => {
                proof {
                    lemma_queue_index(self.queues@, sk);
                }
                false
            },
            Some(i) => {
                let q = &self.queues[i];
                let front_foreign = q.claims.len() > 0 && (q.claims[0].download_id != download_id
                    || q.claims[0].domain != DestinationDomain::Ambient);
                front_foreign || released_contains(&q.released, download_id.as_str(), DestinationDomain::Ambient)
            },
        };
        if blocked {
            return false;
        }
        let ghost held = ClaimView { download_id: id, domain: DestinationDomain::Ambient, generation: Some(generation) };
        let ghost mid = self.queues@;
        let (i, mut q, before) = self.take_queue(source);
        if q.claims.len() > 0 {
            let mut c = q.claims.remove(0);
            c.generation = Some(generation);
            q.claims.insert(0, c);
            proof {
                assert(claims_view(q.claims@) =~= s0.claims.update(0, ClaimView { generation: Some(generation), ..s0.claims[0] }));
            }
        } else {
            q.claims.push(DestinationClaim { download_id: download_id.clone(), domain: DestinationDomain::Ambient, generation: Some(generation) });
            proof {
                assert(claims_view(q.claims@) =~= seq![held]);
            }
        }
        self.put_back(i, q, before);
        let ghost after_source = self.queues@;
        let (k, mut t, before_t) = self.take_queue(target);
        released_remove(&mut t.released, download_id.as_str(), DestinationDomain::Ambient);
        let ghost tc = claims_view(t.claims@);
        t.claims.push(DestinationClaim { download_id, domain: DestinationDomain::Ambient, generation: Some(generation) });
        proof {
            assert(claims_view(t.claims@) =~= tc.push(held));
        }
        self.put_back(k, t, before_t);
        true
    }

    /// Whether the destination holds an exactly matching claim.
    pub fn contains(&self, dest: &DestinationIdentity, download_id: &str, domain: DestinationDomain, generation: u64) -> (r: bool)
        ensures
            r == (match_index(self.queue(dest_key(dest)).claims, download_id@, domain, generation) < self.queue(
                dest_key(dest),
            ).claims.len()),
    {
        match self.find_queue(dest) {
            None => {
                proof {
                    lemma_queue_index(self.queues@, dest_key(dest));
                }
                false
            },
            Some(i) => find_match(&self.queues[i].claims, download_id, domain, generation) < self.queues[i].claims.len(),
        }
    }

    /// How many claims the destination's queue holds.
    pub fn claim_count(&self, dest: &DestinationIdentity) -> (n: usize)
        ensures
            n == self.queue(dest_key(dest)).claims.len(),
    {
        match self.find_queue(dest) {
            None => {
                proof {
                    lemma_queue_index(self.queues@, dest_key(dest));
                }
                0
            },
            Some(i) => self.queues[i].claims.len(),
        }
    }
}

} // verus!
