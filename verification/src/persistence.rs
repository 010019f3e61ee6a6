//! The download store's handle and its ordinary-row operations.
//!
//! Each operation takes the document that was read (and validated) from
//! `downloads.json` and returns the document to publish, if any. Reading,
//! locking and atomic publication are performed by the caller.

use crate::keyed::keyed_map;

use crate::store_invariant::store_wf;
use crate::store_model::{
    downloads_view, DownloadStoreData, StoreView, DOWNLOAD_STORE_SCHEMA_VERSION,
};

use vstd::prelude::*;
use vstd::string::StringExecFns;

verus! {

/// The empty current-version document.
pub open spec fn empty_store() -> StoreView {
    StoreView {
        schema_version: DOWNLOAD_STORE_SCHEMA_VERSION,
        downloads: Seq::empty(),
        recovery_revocations: Map::empty(),
        lifecycle_quarantines: Map::empty(),
        admission_attempts: Map::empty(),
        queue_admissions: Map::empty(),
        released_queue_admissions: Map::empty(),
        pending_relocations: Map::empty(),
    }
}

impl DownloadStoreData {
    /// A current-version document with no records.
    pub fn empty() -> (d: Self)
        ensures
            store_wf(d),
            d@ == empty_store(),
    {
        let d = DownloadStoreData {
            schema_version: DOWNLOAD_STORE_SCHEMA_VERSION,
            downloads: Vec::new(),
            recovery_revocations: Vec::new(),
            lifecycle_quarantines: Vec::new(),
            admission_attempts: Vec::new(),
            queue_admissions: Vec::new(),
            released_queue_admissions: Vec::new(),
            pending_relocations: Vec::new(),
        };
        assert(downloads_view(d.downloads@) =~= Seq::empty());
        assert(keyed_map(d.recovery_revocations@) =~= Map::empty());
        assert(keyed_map(d.lifecycle_quarantines@) =~= Map::empty());
        assert(keyed_map(d.admission_attempts@) =~= Map::empty());
        assert(keyed_map(d.queue_admissions@) =~= Map::empty());
        assert(keyed_map(d.released_queue_admissions@) =~= Map::empty());
        assert(keyed_map(d.pending_relocations@) =~= Map::empty());
        d
    }
}

/// The set of strings held by a list.
pub open spec fn string_set(v: Seq<String>) -> Set<Seq<char>> {
    Set::new(|k: Seq<char>| exists|i: int| 0 <= i < v.len() && #[trigger] v[i]@ == k)
}

/// `{dir}/downloads.json`, joined as a path.
pub open spec fn store_path(dir: Seq<char>) -> Seq<char> {
    if dir.len() == 0 {
        "downloads.json"@
    } else if dir.last() == '/' {
        dir + "downloads.json"@
    } else {
        dir + "/downloads.json"@
    }
}

/// Handle of the download store at `{data_dir}/downloads.json`, with the
/// attempts and cleanups that this process has confirmed durable.
pub struct DownloadPersistence {
    path: String,
    confirmed_admissions: Vec<String>,
    confirmed_cleanups: Vec<String>,
}

pub struct PersistenceView {
    pub path: Seq<char>,
    pub confirmed_admissions: Set<Seq<char>>,
    pub confirmed_cleanups: Set<Seq<char>>,
}

impl View for DownloadPersistence {
    type V = PersistenceView;

    closed spec fn view(&self) -> PersistenceView {
        PersistenceView {
            path: self.path@,
            confirmed_admissions: string_set(self.confirmed_admissions@),
            confirmed_cleanups: string_set(self.confirmed_cleanups@),
        }
    }
}

fn set_contains(v: &Vec<String>, s: &str) -> (r: bool)
    ensures
        r == string_set(v@).contains(s@),
{
    let owned = s.to_owned();
    let mut i: usize = 0;
    while i < v.len()
        invariant
            i <= v@.len(),
            owned@ == s@,
            forall|j: int| 0 <= j < i ==> #[trigger] v@[j]@ != s@,
        decreases v.len() - i,
    {
        if v[i] == owned {
            assert(v@[i as int]@ == s@);
            return true;
        }
        i = i + 1;
    }
    false
}

fn set_insert(v: &mut Vec<String>, s: &str)
    ensures
        string_set(final(v)@) == string_set(old(v)@).insert(s@),
{
    if !set_contains(v, s) {
        let ghost before = v@;
        v.push(s.to_owned());
        assert forall|k: Seq<char>| string_set(v@).contains(k) <==> string_set(before).insert(
            s@,
        ).contains(k) by {
            if string_set(v@).contains(k) {
                let i = choose|i: int| 0 <= i < v@.len() && #[trigger] v@[i]@ == k;
                if i < before.len() {
                    assert(before[i]@ == k);
                }
            }
            if string_set(before).contains(k) {
                let i = choose|i: int| 0 <= i < before.len() && #[trigger] before[i]@ == k;
                assert(v@[i]@ == k);
            }
            if k == s@ {
                assert(v@[before.len() as int]@ == k);
            }
        }
        assert(string_set(v@) =~= string_set(before).insert(s@));
    } else {
        assert(string_set(v@) =~= string_set(v@).insert(s@));
    }
}

fn copy_strings(v: &Vec<String>) -> (r: Vec<String>)
    ensures
        string_set(r@) == string_set(v@),
{
    let mut out: Vec<String> = Vec::new();
    let mut i: usize = 0;
    while i < v.len()
        invariant
            i <= v@.len(),
            out@.len() == i,
            forall|j: int| 0 <= j < i ==> #[trigger] out@[j]@ == v@[j]@,
        decreases v.len() - i,
    {
        out.push(v[i].clone());
        i = i + 1;
    }
    assert forall|k: Seq<char>| string_set(out@).contains(k) <==> string_set(v@).contains(k) by {
        if string_set(out@).contains(k) {
            let j = choose|j: int| 0 <= j < out@.len() && #[trigger] out@[j]@ == k;
            assert(v@[j]@ == k);
        }
        if string_set(v@).contains(k) {
            let j = choose|j: int| 0 <= j < v@.len() && #[trigger] v@[j]@ == k;
            assert(out@[j]@ == k);
        }
    }
    assert(string_set(out@) =~= string_set(v@));
    out
}

impl DownloadPersistence {
    /// A store handle for `{data_dir}/downloads.json` that has confirmed nothing yet.
    pub fn new(data_dir: &str) -> (p: Self)
        ensures
            p@.path == store_path(data_dir@),
            p@.confirmed_admissions == Set::<Seq<char>>::empty(),
            p@.confirmed_cleanups == Set::<Seq<char>>::empty(),
    {
        let mut path = data_dir.to_owned();
        let n = data_dir.unicode_len();
        proof {
            reveal_strlit("downloads.json");
            reveal_strlit("/downloads.json");
        }
        if n == 0 {
            path.append("downloads.json");
        } else if data_dir.get_char(n - 1) == '/' {
            path.append("downloads.json");
        } else {
            path.append("/downloads.json");
        }
        let p = DownloadPersistence { path, confirmed_admissions: Vec::new(), confirmed_cleanups: Vec::new() };
        assert(string_set(p.confirmed_admissions@) =~= Set::<Seq<char>>::empty());
        assert(string_set(p.confirmed_cleanups@) =~= Set::<Seq<char>>::empty());
        p
    }

    /// The path of the store document.
    pub fn path(&self) -> (r: &str)
        ensures
            r@ == self@.path,
    {
        self.path.as_str()
    }

    /// The admission attempts this process has seen published durably.
    pub fn confirmed_admission_ids(&self) -> (r: Vec<String>)
        ensures
            string_set(r@) == self@.confirmed_admissions,
    {
        copy_strings(&self.confirmed_admissions)
    }

    pub fn is_confirmed_admission(&self, attempt_id: &str) -> (r: bool)
        ensures
            r == self@.confirmed_admissions.contains(attempt_id@),
    {
        set_contains(&self.confirmed_admissions, attempt_id)
    }

    /// Record that an admission attempt was published durably.
    pub fn confirm_admission(&mut self, attempt_id: &str)
        ensures
            final(self)@.confirmed_admissions == old(self)@.confirmed_admissions.insert(attempt_id@),
            final(self)@.confirmed_cleanups == old(self)@.confirmed_cleanups,
            final(self)@.path == old(self)@.path,
    {
        set_insert(&mut self.confirmed_admissions, attempt_id);
    }

    pub fn is_confirmed_cleanup(&self, download_id: &str) -> (r: bool)
        ensures
            r == self@.confirmed_cleanups.contains(download_id@),
    {
        set_contains(&self.confirmed_cleanups, download_id)
    }

    /// Record that a download's failure cleanup was published durably as verified.
    pub fn confirm_cleanup(&mut self, download_id: &str)
        ensures
            final(self)@.confirmed_cleanups == old(self)@.confirmed_cleanups.insert(download_id@),
            final(self)@.confirmed_admissions == old(self)@.confirmed_admissions,
            final(self)@.path == old(self)@.path,
    {
        set_insert(&mut self.confirmed_cleanups, download_id);
    }
}

} // verus!
