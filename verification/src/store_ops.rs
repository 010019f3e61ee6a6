//! Saving, removing, listing and updating ordinary download rows.

use crate::error::{is_error, is_other, other_error, validation_error, PumasError};
use crate::keyed::{find_key, index_of_key, lemma_keyed_map_at, lemma_keyed_map_key};
use crate::persistence::DownloadPersistence;
use crate::store_check::{key_present, store_error, validate_store_data};
use crate::store_invariant::{row_has_id, store_valid, store_wf};
use crate::store_model::{
    downloads_view, DownloadStatus, DownloadStoreData, PersistedDownload, PersistedDownloadView,
    StoreView,
};
use crate::store_rows::{
    id_is_not, keep_rows, keep_rows_where_id_is_not, lemma_keep_rows_len, set_row_status,
    set_status_of_row, upsert_row, upsert_rows,
};
use crate::store_validate::relocation_error;
use vstd::prelude::*;

verus! {

/// The document with its rows replaced.
pub open spec fn with_rows(d: StoreView, ds: Seq<PersistedDownloadView>) -> StoreView {
    StoreView { downloads: ds, ..d }
}

/// A pending relocation of `id` holds `dest` as its target directory or as
/// the directory of its source row.
pub open spec fn relocation_holds_path(d: StoreView, id: Seq<char>, dest: Seq<char>) -> bool {
    ||| d.pending_relocations[id].request.target_dir == dest
    ||| exists|i: int|
        0 <= i < d.downloads.len() && #[trigger] d.downloads[i].download_id == id
            && d.downloads[i].dest_dir == dest
}

/// Some pending relocation holds the directory `dest`.
pub open spec fn path_reserved(d: StoreView, dest: Seq<char>) -> bool {
    exists|id: Seq<char>| #[trigger]
        d.pending_relocations.dom().contains(id) && relocation_holds_path(d, id, dest)
}

pub open spec fn relocation_field() -> Seq<char> {
    "downloads.pending_relocations"@
}

pub open spec fn queue_field() -> Seq<char> {
    "downloads.queue_admissions"@
}

/// The error of `reject_queue_mutation` for a download id.
pub open spec fn queue_mutation_error(d: StoreView, id: Seq<char>, e: PumasError) -> bool {
    if d.pending_relocations.dom().contains(id) {
        is_error(e, relocation_field(), "Download is owned by a pending relocation"@)
    } else {
        is_error(e, queue_field(), "Queue-owned download requires an exact lifecycle transition"@)
    }
}

fn row_with_dir(ds: &Vec<PersistedDownload>, id: &String, dir: &String) -> (r: bool)
    ensures
        r == exists|i: int|
            0 <= i < ds@.len() && #[trigger] downloads_view(ds@)[i].download_id == id@
                && downloads_view(ds@)[i].dest_dir == dir@,
{
    let ghost dv = downloads_view(ds@);
    let mut i: usize = 0;
    while i < ds.len()
        invariant
            dv == downloads_view(ds@),
            i <= ds@.len(),
            forall|j: int| 0 <= j < i ==> !(#[trigger] dv[j].download_id == id@ && dv[j].dest_dir == dir@),
        decreases ds.len() - i,
    {
        if ds[i].download_id == *id && ds[i].dest_dir == *dir {
            assert(dv[i as int].download_id == id@);
            return true;
        }
        i = i + 1;
    }
    false
}

/// Refuse a row directory that a pending relocation holds.
pub fn reject_pending_relocation_path(data: &DownloadStoreData, dest: &String) -> (r: Result<(), PumasError>)
    requires
        store_wf(*data),
    ensures
        r is Ok <==> !path_reserved(data@, dest@),
        r matches Err(e) ==> is_error(e, relocation_field(), "Path is reserved by a pending relocation"@),
{
    let v = &data.pending_relocations;
    let mut i: usize = 0;
    while i < v.len()
        invariant
            store_wf(*data),
            v == &data.pending_relocations,
            i <= v@.len(),
            forall|j: int| 0 <= j < i ==> !relocation_holds_path(data@, #[trigger] v@[j].key@, dest@),
        decreases v.len() - i,
    {
        proof {
            lemma_keyed_map_at(v@, i as int);
        }
        if v[i].value.request.target_dir == *dest || row_with_dir(&data.downloads, &v[i].key, dest) {
            assert(relocation_holds_path(data@, v@[i as int].key@, dest@));
            return Err(relocation_error("Path is reserved by a pending relocation"));
        }
        i = i + 1;
    }
    assert forall|id: Seq<char>| #[trigger]
        data@.pending_relocations.dom().contains(id) implies !relocation_holds_path(data@, id, dest@) by {
        lemma_keyed_map_key(v@, id);
        let j = index_of_key(v@, id);
        assert(v@[j].key@ == id);
    }
    Ok(())
}

/// Refuse a download that a pending relocation owns.
pub fn reject_pending_relocation(data: &DownloadStoreData, download_id: &String) -> (r: Result<(), PumasError>)
    requires
        store_wf(*data),
    ensures
        r is Ok <==> !data@.pending_relocations.dom().contains(download_id@),
        r matches Err(e) ==> is_error(e, relocation_field(), "Download is owned by a pending relocation"@),
{
    if key_present(&data.pending_relocations, download_id) {
        return Err(relocation_error("Download is owned by a pending relocation"));
    }
    Ok(())
}

/// Refuse ordinary mutation of a download that a relocation or the queue owns.
pub fn reject_queue_mutation(data: &DownloadStoreData, download_id: &String) -> (r: Result<(), PumasError>)
    requires
        store_wf(*data),
    ensures
        r is Ok <==> !data@.pending_relocations.dom().contains(download_id@)
            && !data@.queue_admissions.dom().contains(download_id@),
        r matches Err(e) ==> queue_mutation_error(data@, download_id@, e),
{
    reject_pending_relocation(data, download_id)?;
    if key_present(&data.queue_admissions, download_id) {
        return Err(
            validation_error(
                "downloads.queue_admissions",
                "Queue-owned download requires an exact lifecycle transition",
            ),
        );
    }
    Ok(())
}

/// Revoked, quarantined or released downloads keep no ordinary row.
pub open spec fn terminal_owner(d: StoreView, id: Seq<char>) -> bool {
    ||| d.recovery_revocations.dom().contains(id)
    ||| d.lifecycle_quarantines.dom().contains(id)
    ||| d.released_queue_admissions.dom().contains(id)
}

pub open spec fn save_refused(d: StoreView, x: PersistedDownloadView) -> bool {
    ||| d.pending_relocations.dom().contains(x.download_id)
    ||| d.queue_admissions.dom().contains(x.download_id)
    ||| path_reserved(d, x.dest_dir)
    ||| terminal_owner(d, x.download_id)
}

/// The document after saving `x`.
pub open spec fn saved(d: StoreView, x: PersistedDownloadView) -> StoreView {
    with_rows(d, upsert_rows(d.downloads, x))
}

pub open spec fn save_error(d: StoreView, x: PersistedDownloadView, e: PumasError) -> bool {
    if d.pending_relocations.dom().contains(x.download_id) || d.queue_admissions.dom().contains(
        x.download_id,
    ) {
        queue_mutation_error(d, x.download_id, e)
    } else if path_reserved(d, x.dest_dir) {
        is_error(e, relocation_field(), "Path is reserved by a pending relocation"@)
    } else if terminal_owner(d, x.download_id) {
        is_other(e, "Refusing to persist a revoked or lifecycle-quarantined download"@)
    } else {
        store_error(saved(d, x), e)
    }
}

/// The document after removing the rows of `id`.
pub open spec fn removed(d: StoreView, id: Seq<char>) -> StoreView {
    with_rows(d, keep_rows(d.downloads, id_is_not(id)))
}

/// Rows that strict listing shows: not parked by a relocation, and not
/// queued under an attempt that this process has not confirmed.
pub open spec fn visible_row(d: StoreView, confirmed: Set<Seq<char>>) -> spec_fn(PersistedDownloadView) -> bool {
    |r: PersistedDownloadView|
        !d.pending_relocations.dom().contains(r.download_id) && (!d.queue_admissions.dom().contains(
            r.download_id,
        ) || confirmed.contains(d.queue_admissions[r.download_id].attempt_id))
}

impl DownloadPersistence {
    /// Insert or replace (by download id) an ordinary row; returns the
    /// document to publish.
    pub fn save(&self, data: DownloadStoreData, download: &PersistedDownload) -> (r: Result<
        DownloadStoreData,
        PumasError,
    >)
        requires
            store_wf(data),
        ensures
            r is Ok <==> !save_refused(data@, download@) && store_valid(saved(data@, download@)),
            r matches Ok(n) ==> store_wf(n) && n@ == saved(data@, download@),
            r matches Err(e) ==> save_error(data@, download@, e),
    {
        let mut data = data;
        reject_queue_mutation(&data, &download.download_id)?;
        reject_pending_relocation_path(&data, &download.dest_dir)?;
        if key_present(&data.recovery_revocations, &download.download_id) || key_present(
            &data.lifecycle_quarantines,
            &download.download_id,
        ) || key_present(&data.released_queue_admissions, &download.download_id) {
            return Err(other_error("Refusing to persist a revoked or lifecycle-quarantined download"));
        }
        let ghost before = data@;
        upsert_row(&mut data.downloads, download);
        assert(data@ == saved(before, download@));
        validate_store_data(&data)?;
        Ok(data)
    }

    /// Remove the ordinary rows of a download. `Ok(None)` means that nothing
    /// changed and nothing is to be published.
    pub fn remove(&self, data: DownloadStoreData, download_id: &String) -> (r: Result<
        Option<DownloadStoreData>,
        PumasError,
    >)
        requires
            store_wf(data),
        ensures
            ({
                let d = data@;
                let id = download_id@;
                if d.pending_relocations.dom().contains(id) || d.queue_admissions.dom().contains(id) {
                    r matches Err(e) && queue_mutation_error(d, id, e)
                } else if d.recovery_revocations.dom().contains(id) || d.lifecycle_quarantines.dom().contains(id)
                    || !row_has_id(d.downloads, id) {
                    r == Ok::<Option<DownloadStoreData>, PumasError>(None)
                } else {
                    &&& r is Ok <==> store_valid(removed(d, id))
                    &&& r matches Ok(n) ==> n matches Some(n) && store_wf(n) && n@ == removed(d, id)
                    &&& r matches Err(e) ==> store_error(removed(d, id), e)
                }
            }),
    {
        let mut data = data;
        reject_queue_mutation(&data, download_id)?;
        if key_present(&data.recovery_revocations, download_id) || key_present(
            &data.lifecycle_quarantines,
            download_id,
        ) {
            return Ok(None);
        }
        let ghost before = data@;
        let before_len = data.downloads.len();
        let kept = keep_rows_where_id_is_not(&data.downloads, download_id);
        proof {
            lemma_keep_rows_len(before.downloads, id_is_not(download_id@));
            assert(before.downloads.len() == before_len);
            if row_has_id(before.downloads, download_id@) {
                let i = choose|i: int|
                    0 <= i < before.downloads.len() && #[trigger] before.downloads[i].download_id
                        == download_id@;
                assert(!id_is_not(download_id@)(before.downloads[i]));
            } else {
                assert forall|i: int| 0 <= i < before.downloads.len() implies id_is_not(download_id@)(
                    #[trigger] before.downloads[i],
                ) by {
                    if before.downloads[i].download_id == download_id@ {
                        assert(row_has_id(before.downloads, download_id@));
                    }
                }
            }
        }
        if kept.len() < before_len {
            data.downloads = kept;
            assert(data@ == removed(before, download_id@));
            validate_store_data(&data)?;
            Ok(Some(data))
        } else {
            Ok(None)
        }
    }

    /// Set the status of an ordinary row that no relocation, queue,
    /// revocation or quarantine owns. `Ok(None)` means no such row.
    pub fn update_status(&self, data: DownloadStoreData, download_id: &String, status: DownloadStatus) -> (r: Result<
        Option<DownloadStoreData>,
        PumasError,
    >)
        requires
            store_wf(data),
        ensures
            ({
                let d = data@;
                let id = download_id@;
                let n = with_rows(d, set_row_status(d.downloads, id, status));
                if d.pending_relocations.dom().contains(id) {
                    r matches Err(e) && is_error(e, relocation_field(), "Download is owned by a pending relocation"@)
                } else if d.recovery_revocations.dom().contains(id) || d.lifecycle_quarantines.dom().contains(id)
                    || d.queue_admissions.dom().contains(id) || !row_has_id(d.downloads, id) {
                    r == Ok::<Option<DownloadStoreData>, PumasError>(None)
                } else {
                    &&& r is Ok <==> store_valid(n)
                    &&& r matches Ok(x) ==> x matches Some(x) && store_wf(x) && x@ == n
                    &&& r matches Err(e) ==> store_error(n, e)
                }
            }),
    {
        let mut data = data;
        reject_pending_relocation(&data, download_id)?;
        if key_present(&data.recovery_revocations, download_id) || key_present(
            &data.lifecycle_quarantines,
            download_id,
        ) || key_present(&data.queue_admissions, download_id) {
            return Ok(None);
        }
        let ghost before = data@;
        if !set_status_of_row(&mut data.downloads, download_id, status) {
            return Ok(None);
        }
        assert(data@ == with_rows(before, set_row_status(before.downloads, download_id@, status)));
        validate_store_data(&data)?;
        Ok(Some(data))
    }

    /// Whether the download has a recovery revocation tombstone.
    pub fn is_revoked(&self, data: &DownloadStoreData, download_id: &String) -> (r: bool)
        requires
            store_wf(*data),
        ensures
            r == data@.recovery_revocations.dom().contains(download_id@),
    {
        key_present(&data.recovery_revocations, download_id)
    }

    fn row_visible(&self, data: &DownloadStoreData, row: &PersistedDownload) -> (r: bool)
        requires
            store_wf(*data),
        ensures
            r == visible_row(data@, self@.confirmed_admissions)(row@),
    {
        if key_present(&data.pending_relocations, &row.download_id) {
            return false;
        }
        match find_key(&data.queue_admissions, &row.download_id) {
            Some(i) => self.is_confirmed_admission(data.queue_admissions[i].value.attempt_id.as_str()),
            None => true,
        }
    }

    /// The rows a strict listing shows.
    pub fn load_all_strict(&self, data: &DownloadStoreData) -> (r: Vec<PersistedDownload>)
        requires
            store_wf(*data),
        ensures
            downloads_view(r@) == keep_rows(data@.downloads, visible_row(data@, self@.confirmed_admissions)),
    {
        let ds = &data.downloads;
        let ghost dv = downloads_view(ds@);
        let ghost p = visible_row(data@, self@.confirmed_admissions);
        let mut out: Vec<PersistedDownload> = Vec::new();
        let mut i: usize = 0;
        while i < ds.len()
            invariant
                store_wf(*data),
                ds == &data.downloads,
                dv == downloads_view(ds@),
                p == visible_row(data@, self@.confirmed_admissions),
                i <= ds@.len(),
                downloads_view(out@) == keep_rows(dv.take(i as int), p),
            decreases ds.len() - i,
        {
            assert(dv.take(i as int + 1).drop_last() =~= dv.take(i as int));
            assert(dv.take(i as int + 1).last() == dv[i as int]);
            if self.row_visible(data, &ds[i]) {
                let row = ds[i].duplicate();
                out.push(row);
                assert(downloads_view(out@) =~= keep_rows(dv.take(i as int), p).push(dv[i as int]));
            }
            i = i + 1;
        }
        assert(dv.take(ds@.len() as int) =~= dv);
        out
    }

    /// The rows a listing shows; a store that could not be read lists nothing.
    pub fn load_all(&self, loaded: Result<DownloadStoreData, PumasError>) -> (r: Vec<PersistedDownload>)
        requires
            loaded matches Ok(d) ==> store_wf(d),
        ensures
            match loaded {
                Ok(d) => downloads_view(r@) == keep_rows(d@.downloads, visible_row(d@, self@.confirmed_admissions)),
                Err(_) => r@.len() == 0,
            },
    {
        match loaded {
            Ok(d) => self.load_all_strict(&d),
            Err(_) => Vec::new(),
        }
    }
}

} // verus!
