//! Deep copies of store documents, and plans of successive publications.

use crate::error::PumasError;
use crate::order::seq_lt;
use crate::keyed::{
    has_key, index_of_key, keyed_map, keys_sorted, keys_unique, lemma_keyed_map_at, lemma_keyed_map_key, Keyed,
};
use crate::store_check::{store_error, validate_store_data};
use crate::store_invariant::{store_valid, store_wf};
use crate::store_model::{
    downloads_view, DownloadStoreData, PersistedAdmissionAttempt, PersistedDownload,
    PersistedLegacyRelocation, PersistedLifecycleQuarantine, PersistedQueueAdmission,
    PersistedRecoveryRevocation, StoreView,
};
use crate::strings::clone_string;
use vstd::prelude::*;

verus! {

/// Values that can be copied with an equal view.
pub trait Duplicate: View + Sized {
    fn dup(&self) -> (r: Self)
        ensures
            r@ == self@,
    ;
}

impl Duplicate for PersistedRecoveryRevocation {
    fn dup(&self) -> (r: Self) {
        PersistedRecoveryRevocation { attempt_id: clone_string(&self.attempt_id), disposition: self.disposition }
    }
}

impl Duplicate for PersistedLifecycleQuarantine {
    fn dup(&self) -> (r: Self) {
        PersistedLifecycleQuarantine {
            snapshot: self.snapshot.duplicate(),
            domain: self.domain,
            disposition: self.disposition,
            sticky_failure: self.sticky_failure,
        }
    }
}

impl Duplicate for PersistedAdmissionAttempt {
    fn dup(&self) -> (r: Self) {
        PersistedAdmissionAttempt { request: self.request.duplicate(), position: self.position.duplicate() }
    }
}

impl Duplicate for PersistedQueueAdmission {
    fn dup(&self) -> (r: Self) {
        self.duplicate()
    }
}

impl Duplicate for PersistedLegacyRelocation {
    fn dup(&self) -> (r: Self) {
        PersistedLegacyRelocation { attempt_id: clone_string(&self.attempt_id), request: self.request.duplicate() }
    }
}

/// Two record lists with the same keys and value views in the same order.
pub open spec fn same_records<V: View>(a: Seq<Keyed<V>>, b: Seq<Keyed<V>>) -> bool {
    &&& a.len() == b.len()
    &&& forall|i: int| 0 <= i < a.len() ==> #[trigger] a[i].key@ == b[i].key@ && a[i].value@ == b[i].value@
}

pub proof fn lemma_same_records<V: View>(a: Seq<Keyed<V>>, b: Seq<Keyed<V>>)
    requires
        same_records(a, b),
        keys_unique(a),
    ensures
        keys_unique(b),
        keyed_map(b) == keyed_map(a),
        keys_sorted(a) ==> keys_sorted(b),
{
    assert forall|i: int, j: int| 0 <= i < j < b.len() && keys_sorted(a) implies seq_lt(
        #[trigger] b[i].key@,
        #[trigger] b[j].key@,
    ) by {
        assert(a[i].key@ == b[i].key@ && a[j].key@ == b[j].key@);
    }
    assert forall|i: int, j: int| 0 <= i < b.len() && 0 <= j < b.len() && i != j implies #[trigger] b[i].key@
        != #[trigger] b[j].key@ by {
        assert(a[i].key@ == b[i].key@ && a[j].key@ == b[j].key@);
    }
    assert forall|k: Seq<char>| keyed_map(b).dom().contains(k) <==> keyed_map(a).dom().contains(k) by {
        if has_key(b, k) {
            let i = choose|i: int| 0 <= i < b.len() && #[trigger] b[i].key@ == k;
            assert(a[i].key@ == k);
        }
        if has_key(a, k) {
            let i = choose|i: int| 0 <= i < a.len() && #[trigger] a[i].key@ == k;
            assert(b[i].key@ == k);
        }
    }
    assert forall|k: Seq<char>| keyed_map(b).dom().contains(k) implies keyed_map(b)[k] == keyed_map(a)[k] by {
        lemma_keyed_map_key(b, k);
        let i = index_of_key(b, k);
        lemma_keyed_map_at(b, i);
        assert(a[i].key@ == k);
        lemma_keyed_map_at(a, i);
    }
    assert(keyed_map(b) =~= keyed_map(a));
}

pub fn dup_records<V: Duplicate>(v: &Vec<Keyed<V>>) -> (r: Vec<Keyed<V>>)
    ensures
        same_records(v@, r@),
{
    let mut out: Vec<Keyed<V>> = Vec::new();
    let mut i: usize = 0;
    while i < v.len()
        invariant
            i <= v@.len(),
            out@.len() == i,
            forall|j: int| 0 <= j < i ==> #[trigger] out@[j].key@ == v@[j].key@ && out@[j].value@ == v@[j].value@,
        decreases v.len() - i,
    {
        out.push(Keyed { key: clone_string(&v[i].key), value: v[i].value.dup() });
        i = i + 1;
    }
    out
}

fn dup_rows(v: &Vec<PersistedDownload>) -> (r: Vec<PersistedDownload>)
    ensures
        downloads_view(r@) == downloads_view(v@),
{
    let mut out: Vec<PersistedDownload> = Vec::new();
    let mut i: usize = 0;
    while i < v.len()
        invariant
            i <= v@.len(),
            out@.len() == i,
            forall|j: int| 0 <= j < i ==> #[trigger] out@[j]@ == v@[j]@,
        decreases v.len() - i,
    {
        out.push(v[i].duplicate());
        i = i + 1;
    }
    assert(downloads_view(out@) =~= downloads_view(v@));
    out
}

impl DownloadStoreData {
    /// A copy of the document.
    pub fn duplicate(&self) -> (r: Self)
        requires
            store_wf(*self),
        ensures
            store_wf(r),
            r@ == self@,
    {
        let r = DownloadStoreData {
            schema_version: self.schema_version,
            downloads: dup_rows(&self.downloads),
            recovery_revocations: dup_records(&self.recovery_revocations),
            lifecycle_quarantines: dup_records(&self.lifecycle_quarantines),
            admission_attempts: dup_records(&self.admission_attempts),
            queue_admissions: dup_records(&self.queue_admissions),
            released_queue_admissions: dup_records(&self.released_queue_admissions),
            pending_relocations: dup_records(&self.pending_relocations),
        };
        proof {
            lemma_same_records(self.recovery_revocations@, r.recovery_revocations@);
            lemma_same_records(self.lifecycle_quarantines@, r.lifecycle_quarantines@);
            lemma_same_records(self.admission_attempts@, r.admission_attempts@);
            lemma_same_records(self.queue_admissions@, r.queue_admissions@);
            lemma_same_records(self.released_queue_admissions@, r.released_queue_admissions@);
            lemma_same_records(self.pending_relocations@, r.pending_relocations@);
        }
        r
    }
}

/// Documents to publish in order, each of which must become durable, then
/// the operation's answer: `failure` when the next document was invalid.
pub struct PublicationPlan {
    pub documents: Vec<DownloadStoreData>,
    pub failure: Option<PumasError>,
    pub result: bool,
}

/// The plan publishes the valid prefix of `docs` and reports a validation
/// failure at the first invalid one.
pub open spec fn plan_publishes(p: PublicationPlan, docs: Seq<StoreView>) -> bool {
    let n = p.documents@.len();
    &&& n <= docs.len()
    &&& forall|i: int| 0 <= i < n ==> #[trigger] p.documents@[i]@ == docs[i] && store_wf(p.documents@[i])
    &&& forall|i: int| 0 <= i < n ==> store_valid(#[trigger] docs[i])
    &&& p.failure is None ==> n == docs.len()
    &&& p.failure matches Some(e) ==> (n < docs.len() && !store_valid(docs[n as int]) && store_error(docs[n as int], e))
}

impl PublicationPlan {
    pub fn new(result: bool) -> (p: Self)
        ensures
            p.documents@.len() == 0,
            p.failure is None,
            p.result == result,
    {
        PublicationPlan { documents: Vec::new(), failure: None, result }
    }

    /// Add a document when it is valid; otherwise record the failure.
    pub fn stage(&mut self, doc: &DownloadStoreData) -> (ok: bool)
        requires
            store_wf(*doc),
            old(self).failure is None,
        ensures
            ok == store_valid(doc@),
            final(self).result == old(self).result,
            ok ==> final(self).failure is None && final(self).documents@.len() == old(self).documents@.len() + 1
                && final(self).documents@.drop_last() == old(self).documents@ && final(self).documents@.last()@
                == doc@ && store_wf(final(self).documents@.last()),
            !ok ==> final(self).documents@ == old(self).documents@ && (final(self).failure matches Some(e)
                && store_error(doc@, e)),
    {
        match validate_store_data(doc) {
            Ok(()) => {
                self.documents.push(doc.duplicate());
                assert(self.documents@.drop_last() =~= old(self).documents@);
                true
            },
            Err(e) => {
                self.failure = Some(e);
                false
            },
        }
    }
}

} // verus!
