//! Row-level operations on the ordinary download rows of the store document.

use crate::store_check::{find_row, lemma_first_with_id};
use crate::store_invariant::{first_with_id, row_has_id};
use crate::store_model::{downloads_view, DownloadStatus, PersistedDownload, PersistedDownloadView};
use vstd::prelude::*;

verus! {

/// The rows of `ds` that satisfy `p`, in their order.
pub open spec fn keep_rows(ds: Seq<PersistedDownloadView>, p: spec_fn(PersistedDownloadView) -> bool) -> Seq<
    PersistedDownloadView,
>
    decreases ds.len(),
{
    if ds.len() == 0 {
        ds
    } else {
        let rest = keep_rows(ds.drop_last(), p);
        if p(ds.last()) {
            rest.push(ds.last())
        } else {
            rest
        }
    }
}

/// Rows whose download id differs from `id`.
pub open spec fn id_is_not(id: Seq<char>) -> spec_fn(PersistedDownloadView) -> bool {
    |r: PersistedDownloadView| r.download_id != id
}

/// Insert a row, or replace the first row with the same download id.
pub open spec fn upsert_rows(ds: Seq<PersistedDownloadView>, x: PersistedDownloadView) -> Seq<
    PersistedDownloadView,
> {
    if row_has_id(ds, x.download_id) {
        ds.update(first_with_id(ds, x.download_id), x)
    } else {
        ds.push(x)
    }
}

/// Change the status of the first row with the given id.
pub open spec fn set_row_status(ds: Seq<PersistedDownloadView>, id: Seq<char>, status: DownloadStatus) -> Seq<
    PersistedDownloadView,
> {
    let i = first_with_id(ds, id);
    ds.update(i, PersistedDownloadView { status, ..ds[i] })
}

pub proof fn lemma_keep_rows_len(ds: Seq<PersistedDownloadView>, p: spec_fn(PersistedDownloadView) -> bool)
    ensures
        keep_rows(ds, p).len() <= ds.len(),
        keep_rows(ds, p).len() == ds.len() <==> forall|i: int| 0 <= i < ds.len() ==> p(#[trigger] ds[i]),
    decreases ds.len(),
{
    if ds.len() > 0 {
        lemma_keep_rows_len(ds.drop_last(), p);
        if forall|i: int| 0 <= i < ds.len() ==> p(#[trigger] ds[i]) {
            assert forall|i: int| 0 <= i < ds.drop_last().len() implies p(#[trigger] ds.drop_last()[i]) by {
                assert(ds.drop_last()[i] == ds[i]);
            }
        }
        if forall|i: int| 0 <= i < ds.drop_last().len() ==> p(#[trigger] ds.drop_last()[i]) {
            if p(ds.last()) {
                assert forall|i: int| 0 <= i < ds.len() implies p(#[trigger] ds[i]) by {
                    if i < ds.len() - 1 {
                        assert(ds.drop_last()[i] == ds[i]);
                    }
                }
            }
        }
    }
}

/// Every kept row satisfies the predicate and comes from the input; every
/// input row that satisfies it is kept.
pub proof fn lemma_keep_rows_contains(
    ds: Seq<PersistedDownloadView>,
    p: spec_fn(PersistedDownloadView) -> bool,
    x: PersistedDownloadView,
)
    ensures
        keep_rows(ds, p).contains(x) <==> ds.contains(x) && p(x),
    decreases ds.len(),
{
    if ds.len() > 0 {
        lemma_keep_rows_contains(ds.drop_last(), p, x);
        let rest = keep_rows(ds.drop_last(), p);
        if ds.contains(x) {
            let i = choose|i: int| 0 <= i < ds.len() && ds[i] == x;
            if i < ds.len() - 1 {
                assert(ds.drop_last()[i] == x);
            }
        }
        if ds.drop_last().contains(x) {
            let i = choose|i: int| 0 <= i < ds.drop_last().len() && ds.drop_last()[i] == x;
            assert(ds[i] == x);
        }
        if p(ds.last()) {
            if rest.push(ds.last()).contains(x) {
                let i = choose|i: int| 0 <= i < rest.push(ds.last()).len() && rest.push(ds.last())[i] == x;
                if i < rest.len() {
                    assert(rest[i] == x);
                }
            }
            if rest.contains(x) {
                let i = choose|i: int| 0 <= i < rest.len() && rest[i] == x;
                assert(rest.push(ds.last())[i] == x);
            }
            assert(rest.push(ds.last())[rest.len() as int] == ds.last());
        }
    }
}

/// Copy of the rows that satisfy `p`, computed by `keep`.
pub fn keep_rows_where_id_is_not(ds: &Vec<PersistedDownload>, id: &String) -> (r: Vec<PersistedDownload>)
    ensures
        downloads_view(r@) == keep_rows(downloads_view(ds@), id_is_not(id@)),
{
    let ghost dv = downloads_view(ds@);
    let mut out: Vec<PersistedDownload> = Vec::new();
    let mut i: usize = 0;
    while i < ds.len()
        invariant
            dv == downloads_view(ds@),
            i <= ds@.len(),
            downloads_view(out@) == keep_rows(dv.take(i as int), id_is_not(id@)),
        decreases ds.len() - i,
    {
        assert(dv.take(i as int + 1).drop_last() =~= dv.take(i as int));
        assert(dv.take(i as int + 1).last() == dv[i as int]);
        if ds[i].download_id != *id {
            let row = ds[i].duplicate();
            out.push(row);
            assert(downloads_view(out@) =~= keep_rows(dv.take(i as int), id_is_not(id@)).push(
                dv[i as int],
            ));
        }
        i = i + 1;
    }
    assert(dv.take(ds@.len() as int) =~= dv);
    out
}

pub fn upsert_row(ds: &mut Vec<PersistedDownload>, x: &PersistedDownload)
    ensures
        downloads_view(final(ds)@) == upsert_rows(downloads_view(old(ds)@), x@),
{
    let ghost dv = downloads_view(ds@);
    match find_row(ds, &x.download_id) {
        Some(i) => {
            proof {
                lemma_first_with_id(dv, x@.download_id, i as int);
            }
            ds.set(i, x.duplicate());
            assert(downloads_view(ds@) =~= dv.update(i as int, x@));
        },
        None => {
            ds.push(x.duplicate());
            assert(downloads_view(ds@) =~= dv.push(x@));
        },
    }
}

/// Set the status of the first row with id `id`, when there is one.
pub fn set_status_of_row(ds: &mut Vec<PersistedDownload>, id: &String, status: DownloadStatus) -> (r: bool)
    ensures
        r == row_has_id(downloads_view(old(ds)@), id@),
        r ==> downloads_view(final(ds)@) == set_row_status(downloads_view(old(ds)@), id@, status),
        !r ==> final(ds)@ == old(ds)@,
{
    let ghost dv = downloads_view(ds@);
    match find_row(ds, id) {
        Some(i) => {
            proof {
                lemma_first_with_id(dv, id@, i as int);
            }
            let mut row = ds[i].duplicate();
            row.status = status;
            ds.set(i, row);
            assert(downloads_view(ds@) =~= set_row_status(dv, id@, status));
            true
        },
        None => false,
    }
}

} // verus!
