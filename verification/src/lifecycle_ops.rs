//! Queue settlement, admitted status, cleanup quarantines and recovery
//! revocation on the store document.

use crate::error::{is_error, is_other, other_error, validation_error, PumasError};
use crate::keyed::{find_key, insert_key, remove_key};
use crate::persistence::DownloadPersistence;
use crate::store_check::{find_row, key_present, lemma_first_with_id, store_error, validate_store_data};
use crate::store_copy::{plan_publishes, Duplicate, PublicationPlan};
use crate::store_invariant::{first_with_id, row_has_id, store_valid, store_wf};
use crate::store_model::{
    persisted_download_identity_matches, with_status, DownloadStatus, DownloadStoreData,
    LifecycleQuarantineDomain, PersistedDownload, PersistedDownloadView,
    PersistedLifecycleCleanupDisposition, PersistedLifecycleQuarantine, PersistedRecoveryRevocation,
    PersistedRevocationDisposition, QuarantineView, RevocationView, StoreView,
};
use crate::store_ops::{
    path_reserved, queue_field, queue_mutation_error, reject_pending_relocation,
    reject_pending_relocation_path, reject_queue_mutation, relocation_field, with_rows,
};
use crate::store_rows::{
    id_is_not, keep_rows, keep_rows_where_id_is_not, set_row_status, set_status_of_row,
};
use crate::strings::clone_string;
use crate::uuid_text::{new_attempt_id, uuid_parses};
use vstd::prelude::*;

verus! {

pub open spec fn quarantine_field() -> Seq<char> {
    "downloads.lifecycle_quarantines"@
}

pub open spec fn with_quarantine(d: StoreView, id: Seq<char>, q: QuarantineView) -> StoreView {
    StoreView { lifecycle_quarantines: d.lifecycle_quarantines.insert(id, q), ..d }
}

/// The quarantine of `id` with another cleanup disposition.
pub open spec fn with_disposition(d: StoreView, id: Seq<char>, disp: PersistedLifecycleCleanupDisposition) -> StoreView {
    with_quarantine(d, id, QuarantineView { disposition: disp, ..d.lifecycle_quarantines[id] })
}

/// The document after settling the queue admission of `id`.
pub open spec fn settled(d: StoreView, id: Seq<char>) -> StoreView {
    if d.queue_admissions.dom().contains(id) {
        StoreView {
            queue_admissions: d.queue_admissions.remove(id),
            released_queue_admissions: d.released_queue_admissions.insert(id, d.queue_admissions[id]),
            downloads: keep_rows(d.downloads, id_is_not(id)),
            lifecycle_quarantines: if d.lifecycle_quarantines.dom().contains(id)
                && !d.lifecycle_quarantines[id].sticky_failure {
                d.lifecycle_quarantines.remove(id)
            } else {
                d.lifecycle_quarantines
            },
            ..d
        }
    } else {
        d
    }
}

/// The single document an operation publishes, when it is valid.
pub open spec fn publishes_one(r: Result<Option<DownloadStoreData>, PumasError>, n: StoreView) -> bool {
    &&& r is Ok <==> store_valid(n)
    &&& r matches Ok(x) ==> (x matches Some(x) && store_wf(x) && x@ == n)
    &&& r matches Err(e) ==> store_error(n, e)
}

pub open spec fn is_terminal_request(s: DownloadStatus) -> bool {
    s == DownloadStatus::Cancelling || s == DownloadStatus::Completed || s == DownloadStatus::Cancelled
}

/// The quarantine record that `begin_lifecycle_quarantine` publishes first.
pub open spec fn fresh_quarantine(
    d: StoreView,
    id: Seq<char>,
    snap: PersistedDownloadView,
    domain: LifecycleQuarantineDomain,
    sticky: bool,
    disp: PersistedLifecycleCleanupDisposition,
) -> StoreView {
    StoreView {
        downloads: keep_rows(d.downloads, id_is_not(id)),
        lifecycle_quarantines: d.lifecycle_quarantines.insert(
            id,
            QuarantineView { snapshot: snap, domain, disposition: disp, sticky_failure: sticky },
        ),
        ..d
    }
}

/// The documents `begin_lifecycle_quarantine` publishes once every check passed.
pub open spec fn quarantine_documents(
    d: StoreView,
    snap: PersistedDownloadView,
    domain: LifecycleQuarantineDomain,
    sticky: bool,
) -> Seq<StoreView> {
    let id = snap.download_id;
    let existing = d.lifecycle_quarantines.dom().contains(id);
    let s = sticky || (existing && d.lifecycle_quarantines[id].sticky_failure);
    let qsnap = with_status(snap, if s { DownloadStatus::Error } else { DownloadStatus::Cancelling });
    if existing {
        let e = d.lifecycle_quarantines[id];
        let promote = s && !e.sticky_failure;
        let d1 = if promote {
            with_quarantine(
                d,
                id,
                QuarantineView { sticky_failure: true, snapshot: with_status(e.snapshot, DownloadStatus::Error), ..e },
            )
        } else {
            d
        };
        let pre = if promote { seq![d1] } else { Seq::empty() };
        if e.disposition != PersistedLifecycleCleanupDisposition::PendingIntent {
            pre.push(d1)
        } else {
            pre + seq![
                fresh_quarantine(d1, id, qsnap, domain, s, PersistedLifecycleCleanupDisposition::PendingIntent),
                fresh_quarantine(d1, id, qsnap, domain, s, PersistedLifecycleCleanupDisposition::Pending),
            ]
        }
    } else {
        seq![
            fresh_quarantine(d, id, qsnap, domain, s, PersistedLifecycleCleanupDisposition::PendingIntent),
            fresh_quarantine(d, id, qsnap, domain, s, PersistedLifecycleCleanupDisposition::Pending),
        ]
    }
}

/// The revocation tombstone recorded before publication.
pub open spec fn revocation_intent(d: StoreView, id: Seq<char>, a: Seq<char>) -> StoreView {
    StoreView {
        downloads: keep_rows(d.downloads, id_is_not(id)),
        recovery_revocations: d.recovery_revocations.insert(
            id,
            RevocationView { attempt_id: a, disposition: PersistedRevocationDisposition::DurabilityUnknown },
        ),
        ..d
    }
}

/// What to publish for a revocation.
pub enum RevocationPlan {
    /// A durable tombstone already exists under this attempt.
    AlreadyDurable { attempt_id: String },
    /// Publish the intent; after it is durable, publish its confirmation.
    PublishIntent { attempt_id: String, intent: DownloadStoreData },
}

fn set_quarantine(data: &mut DownloadStoreData, id: &String, q: PersistedLifecycleQuarantine)
    requires
        store_wf(*old(data)),
    ensures
        store_wf(*final(data)),
        final(data)@ == with_quarantine(old(data)@, id@, q@),
{
    let ghost d0 = data@;
    insert_key(&mut data.lifecycle_quarantines, clone_string(id), q);
    assert(data@ == with_quarantine(d0, id@, q@));
}

/// `begin_lifecycle_quarantine` refuses the request before looking at an
/// existing quarantine.
pub open spec fn quarantine_refused(d: StoreView, snap: PersistedDownloadView, domain: LifecycleQuarantineDomain) -> bool {
    let id = snap.download_id;
    let row = d.downloads[first_with_id(d.downloads, id)];
    ||| d.pending_relocations.dom().contains(id)
    ||| path_reserved(d, snap.dest_dir)
    ||| (row_has_id(d.downloads, id) && d.queue_admissions.dom().contains(id) && row != with_status(snap, row.status))
    ||| (domain == LifecycleQuarantineDomain::Ambient && d.recovery_revocations.dom().contains(id))
    ||| (domain == LifecycleQuarantineDomain::Recovery && !(d.recovery_revocations.dom().contains(id)
        && d.recovery_revocations[id].disposition == PersistedRevocationDisposition::Durable))
}

/// The error of the first refusal that applies.
pub open spec fn quarantine_refusal(
    d: StoreView,
    snap: PersistedDownloadView,
    domain: LifecycleQuarantineDomain,
    x: PumasError,
) -> bool {
    let id = snap.download_id;
    let row = d.downloads[first_with_id(d.downloads, id)];
    if d.pending_relocations.dom().contains(id) {
        is_error(x, relocation_field(), "Download is owned by a pending relocation"@)
    } else if path_reserved(d, snap.dest_dir) {
        is_error(x, relocation_field(), "Path is reserved by a pending relocation"@)
    } else if row_has_id(d.downloads, id) && d.queue_admissions.dom().contains(id) && row != with_status(
        snap,
        row.status,
    ) {
        is_error(x, quarantine_field(), "Quarantine must preserve the admitted snapshot identity"@)
    } else if domain == LifecycleQuarantineDomain::Ambient {
        is_other(x, "Ambient lifecycle quarantine conflicts with recovery revocation"@)
    } else if !d.recovery_revocations.dom().contains(id) {
        is_other(x, "Recovery lifecycle quarantine requires a revocation tombstone"@)
    } else {
        is_other(x, "Recovery lifecycle quarantine requires a durable revocation tombstone"@)
    }
}

fn check_quarantine_request(
    data: &DownloadStoreData,
    snapshot: &PersistedDownload,
    domain: LifecycleQuarantineDomain,
) -> (r: Result<(), PumasError>)
    requires
        store_wf(*data),
    ensures
        r is Ok <==> !quarantine_refused(data@, snapshot@, domain),
        r matches Err(x) ==> quarantine_refusal(data@, snapshot@, domain, x),
{
    let ghost d0 = data@;
    let download_id = &snapshot.download_id;
    reject_pending_relocation(data, download_id)?;
    reject_pending_relocation_path(data, &snapshot.dest_dir)?;
    if let Some(i) = find_row(&data.downloads, download_id) {
        proof {
            lemma_first_with_id(d0.downloads, download_id@, i as int);
        }
        if key_present(&data.queue_admissions, download_id) && !persisted_download_identity_matches(
            &data.downloads[i],
            snapshot,
        ) {
            return Err(
                validation_error(
                    "downloads.lifecycle_quarantines",
                    "Quarantine must preserve the admitted snapshot identity",
                ),
            );
        }
    }
    match domain {
        LifecycleQuarantineDomain::Ambient => {
            if key_present(&data.recovery_revocations, download_id) {
                return Err(other_error("Ambient lifecycle quarantine conflicts with recovery revocation"));
            }
        },
        LifecycleQuarantineDomain::Recovery => {
            match find_key(&data.recovery_revocations, download_id) {
                None => {
                    return Err(other_error("Recovery lifecycle quarantine requires a revocation tombstone"));
                },
                Some(i) => {
                    if data.recovery_revocations[i].value.disposition != PersistedRevocationDisposition::Durable {
                        return Err(
                            other_error("Recovery lifecycle quarantine requires a durable revocation tombstone"),
                        );
                    }
                },
            }
        },
    }
    Ok(())
}

/// Stage the intent and pending documents of a fresh quarantine record.
fn stage_fresh_quarantine(
    plan: &mut PublicationPlan,
    Ghost(prefix): Ghost<Seq<StoreView>>,
    data: DownloadStoreData,
    download_id: &String,
    quarantine_snapshot: &PersistedDownload,
    domain: LifecycleQuarantineDomain,
    sticky: bool,
)
    requires
        store_wf(data),
        old(plan).failure is None,
        plan_publishes(*old(plan), prefix),
    ensures
        final(plan).result == old(plan).result,
        plan_publishes(
            *final(plan),
            prefix + seq![
                fresh_quarantine(data@, download_id@, quarantine_snapshot@, domain, sticky, PersistedLifecycleCleanupDisposition::PendingIntent),
                fresh_quarantine(data@, download_id@, quarantine_snapshot@, domain, sticky, PersistedLifecycleCleanupDisposition::Pending),
            ],
        ),
{
    let mut data = data;
    let ghost d1 = data@;
    let ghost a = fresh_quarantine(d1, download_id@, quarantine_snapshot@, domain, sticky, PersistedLifecycleCleanupDisposition::PendingIntent);
    let ghost b = fresh_quarantine(d1, download_id@, quarantine_snapshot@, domain, sticky, PersistedLifecycleCleanupDisposition::Pending);
    let ghost all = prefix + seq![a, b];
    data.downloads = keep_rows_where_id_is_not(&data.downloads, download_id);
    set_quarantine(
        &mut data,
        download_id,
        PersistedLifecycleQuarantine {
            snapshot: quarantine_snapshot.duplicate(),
            domain,
            disposition: PersistedLifecycleCleanupDisposition::PendingIntent,
            sticky_failure: sticky,
        },
    );
    assert(data@ == a);
    let ghost n0 = plan.documents@.len();
    assert(n0 == prefix.len());
    if !plan.stage(&data) {
        assert(all[n0 as int] == a);
        return;
    }
    assert forall|i: int| 0 <= i < plan.documents@.len() implies #[trigger] plan.documents@[i]@ == all[i]
        && store_wf(plan.documents@[i]) by {
        if i < n0 {
            assert(plan.documents@[i] == plan.documents@.drop_last()[i]);
        }
    }
    set_quarantine(
        &mut data,
        download_id,
        PersistedLifecycleQuarantine {
            snapshot: quarantine_snapshot.duplicate(),
            domain,
            disposition: PersistedLifecycleCleanupDisposition::Pending,
            sticky_failure: sticky,
        },
    );
    assert(data@.lifecycle_quarantines =~= b.lifecycle_quarantines);
    assert(data@ == b);
    let ghost n1 = plan.documents@.len();
    if !plan.stage(&data) {
        assert(all[n1 as int] == b);
        return;
    }
    assert forall|i: int| 0 <= i < plan.documents@.len() implies #[trigger] plan.documents@[i]@ == all[i]
        && store_wf(plan.documents@[i]) by {
        if i < n1 {
            assert(plan.documents@[i] == plan.documents@.drop_last()[i]);
        }
    }
}

/// Build the publications of a quarantine whose request passed every check.
fn quarantine_plan(
    data: DownloadStoreData,
    snapshot: &PersistedDownload,
    domain: LifecycleQuarantineDomain,
    sticky_failure: bool,
) -> (r: Result<PublicationPlan, PumasError>)
    requires
        store_wf(data),
    ensures
        ({
            let d = data@;
            let snap = snapshot@;
            let id = snap.download_id;
            let e = d.lifecycle_quarantines[id];
            let s = sticky_failure || (d.lifecycle_quarantines.dom().contains(id) && e.sticky_failure);
            let qsnap = with_status(snap, if s { DownloadStatus::Error } else { DownloadStatus::Cancelling });
            if d.lifecycle_quarantines.dom().contains(id) && (e.domain != domain || e.snapshot
                != with_status(qsnap, e.snapshot.status)) {
                r matches Err(x) && is_other(x, "Lifecycle quarantine identity mismatch"@)
            } else {
                r matches Ok(p) && plan_publishes(p, quarantine_documents(d, snap, domain, sticky_failure))
            }
        }),
{
    let mut data = data;
    let ghost d0 = data@;
    let download_id = clone_string(&snapshot.download_id);
    let existing = match find_key(&data.lifecycle_quarantines, &download_id) {
        Some(i) => Some(data.lifecycle_quarantines[i].value.dup()),
        None => None,
    };
    let sticky = sticky_failure || match &existing {
        Some(e) => e.sticky_failure,
        None => false,
    };
    let mut quarantine_snapshot = snapshot.duplicate();
    quarantine_snapshot.status = if sticky {
        DownloadStatus::Error
    } else {
        DownloadStatus::Cancelling
    };
    let ghost qsv = quarantine_snapshot@;
    let ghost docs = quarantine_documents(d0, snapshot@, domain, sticky_failure);
    assert(qsv == with_status(snapshot@, if sticky { DownloadStatus::Error } else { DownloadStatus::Cancelling }));
    let mut plan = PublicationPlan::new(true);
    match existing {
        None => {
            stage_fresh_quarantine(&mut plan, Ghost(Seq::empty()), data, &download_id, &quarantine_snapshot, domain, sticky);
            assert(Seq::<StoreView>::empty() + docs =~= docs);
            Ok(plan)
        },
        Some(e) => {
            if e.domain != domain || !persisted_download_identity_matches(&e.snapshot, &quarantine_snapshot) {
                return Err(other_error("Lifecycle quarantine identity mismatch"));
            }
            let promote = sticky && !e.sticky_failure;
            let disposition = e.disposition;
            let ghost mut pre: Seq<StoreView> = Seq::empty();
            if promote {
                let mut p = e;
                p.sticky_failure = true;
                p.snapshot.status = DownloadStatus::Error;
                set_quarantine(&mut data, &download_id, p);
                if !plan.stage(&data) {
                    return Ok(plan);
                }
                proof {
                    pre = seq![data@];
                    assert(plan.documents@[0] == plan.documents@.last());
                }
            }
            assert(plan_publishes(plan, pre));
            if disposition != PersistedLifecycleCleanupDisposition::PendingIntent {
                let ghost n0 = plan.documents@.len();
                let ok = plan.stage(&data);
                proof {
                    if ok {
                        assert forall|i: int| 0 <= i < plan.documents@.len() implies #[trigger] plan.documents@[i]@
                            == docs[i] && store_wf(plan.documents@[i]) by {
                            if i < n0 {
                                assert(plan.documents@[i] == plan.documents@.drop_last()[i]);
                            }
                        }
                    }
                }
                return Ok(plan);
            }
            stage_fresh_quarantine(&mut plan, Ghost(pre), data, &download_id, &quarantine_snapshot, domain, sticky);
            Ok(plan)
        },
    }
}

impl DownloadPersistence {
    /// Settle the queue admission of a download after its owner completed
    /// every destination effect. `Ok(None)`: no admission to settle.
    pub fn settle_queue_admission(&self, data: DownloadStoreData, download_id: &String, attempt_id: &String) -> (r:
        Result<Option<DownloadStoreData>, PumasError>)
        requires
            store_wf(data),
        ensures
            ({
                let d = data@;
                let id = download_id@;
                let q_in = d.queue_admissions.dom().contains(id);
                let adm = if q_in { d.queue_admissions[id] } else { d.released_queue_admissions[id] };
                if !q_in && !d.released_queue_admissions.dom().contains(id) {
                    r == Ok::<Option<DownloadStoreData>, PumasError>(None)
                } else if adm.attempt_id != attempt_id@ {
                    r matches Err(e) && is_error(e, queue_field(), "Queue release attempt identity mismatch"@)
                } else if d.lifecycle_quarantines.dom().contains(id) && d.lifecycle_quarantines[id].sticky_failure
                    && d.lifecycle_quarantines[id].disposition != PersistedLifecycleCleanupDisposition::Verified {
                    r matches Err(e) && is_error(e, quarantine_field(), "Queue release requires verified failure cleanup"@)
                } else {
                    publishes_one(r, settled(d, id))
                }
            }),
    {
        let mut data = data;
        let ghost d0 = data@;
        let owner = match find_key(&data.queue_admissions, download_id) {
            Some(i) => clone_string(&data.queue_admissions[i].value.attempt_id),
            None => match find_key(&data.released_queue_admissions, download_id) {
                Some(i) => clone_string(&data.released_queue_admissions[i].value.attempt_id),
                None => {
                    return Ok(None);
                },
            },
        };
        if owner != *attempt_id {
            return Err(validation_error("downloads.queue_admissions", "Queue release attempt identity mismatch"));
        }
        if let Some(i) = find_key(&data.lifecycle_quarantines, download_id) {
            let q = &data.lifecycle_quarantines[i].value;
            if q.sticky_failure && q.disposition != PersistedLifecycleCleanupDisposition::Verified {
                return Err(
                    validation_error(
                        "downloads.lifecycle_quarantines",
                        "Queue release requires verified failure cleanup",
                    ),
                );
            }
        }
        if let Some(admission) = remove_key(&mut data.queue_admissions, download_id) {
            assert(admission@ == d0.queue_admissions[download_id@]);
            insert_key(&mut data.released_queue_admissions, clone_string(download_id), admission);
            data.downloads = keep_rows_where_id_is_not(&data.downloads, download_id);
            let clean = match find_key(&data.lifecycle_quarantines, download_id) {
                Some(i) => !data.lifecycle_quarantines[i].value.sticky_failure,
                None => false,
            };
            if clean {
                let _ = remove_key(&mut data.lifecycle_quarantines, download_id);
            }
            let ghost n = settled(d0, download_id@);
            assert(data@.queue_admissions == n.queue_admissions);
            assert(data@.released_queue_admissions == n.released_queue_admissions);
            assert(data@.downloads == n.downloads);
            assert(data@.lifecycle_quarantines == n.lifecycle_quarantines);
            assert(data@ == n);
        } else {
            assert(d0.queue_admissions.remove(download_id@) =~= d0.queue_admissions);
            assert(data@ == d0);
        }
        assert(data@ == settled(d0, download_id@));
        validate_store_data(&data)?;
        Ok(Some(data))
    }

    /// Change only the status of this owner's confirmed, exact admission.
    /// `Ok(None)`: the download is not so owned, or has no row.
    pub fn update_admitted_status(
        &self,
        data: DownloadStoreData,
        download_id: &String,
        attempt_id: &String,
        status: DownloadStatus,
    ) -> (r: Result<Option<DownloadStoreData>, PumasError>)
        requires
            store_wf(data),
        ensures
            ({
                let d = data@;
                let id = download_id@;
                if is_terminal_request(status) {
                    r matches Err(e) && is_error(
                        e,
                        "downloads.status"@,
                        "Terminal or cancelling status requires an owned queue settlement"@,
                    )
                } else if d.recovery_revocations.dom().contains(id) || d.lifecycle_quarantines.dom().contains(id)
                    || !d.queue_admissions.dom().contains(id) || d.queue_admissions[id].attempt_id != attempt_id@
                    || !self@.confirmed_admissions.contains(attempt_id@) || !row_has_id(d.downloads, id) {
                    r == Ok::<Option<DownloadStoreData>, PumasError>(None)
                } else {
                    publishes_one(r, with_rows(d, set_row_status(d.downloads, id, status)))
                }
            }),
    {
        if matches!(status, DownloadStatus::Cancelling | DownloadStatus::Completed | DownloadStatus::Cancelled) {
            return Err(
                validation_error(
                    "downloads.status",
                    "Terminal or cancelling status requires an owned queue settlement",
                ),
            );
        }
        let mut data = data;
        if key_present(&data.recovery_revocations, download_id) || key_present(
            &data.lifecycle_quarantines,
            download_id,
        ) {
            return Ok(None);
        }
        match find_key(&data.queue_admissions, download_id) {
            Some(i) => {
                if data.queue_admissions[i].value.attempt_id != *attempt_id {
                    return Ok(None);
                }
            },
            None => {
                return Ok(None);
            },
        }
        if !self.is_confirmed_admission(attempt_id.as_str()) {
            return Ok(None);
        }
        let ghost d0 = data@;
        if !set_status_of_row(&mut data.downloads, download_id, status) {
            return Ok(None);
        }
        assert(data@ == with_rows(d0, set_row_status(d0.downloads, download_id@, status)));
        validate_store_data(&data)?;
        Ok(Some(data))
    }

    /// Remove a clean (non-failure) quarantine whose cleanup is pending.
    /// `Ok(None)`: there is no such quarantine.
    pub fn remove_clean_lifecycle_quarantine(&self, data: DownloadStoreData, download_id: &String) -> (r: Result<
        Option<DownloadStoreData>,
        PumasError,
    >)
        requires
            store_wf(data),
        ensures
            ({
                let d = data@;
                let id = download_id@;
                if d.pending_relocations.dom().contains(id) || d.queue_admissions.dom().contains(id) {
                    r matches Err(e) && queue_mutation_error(d, id, e)
                } else if !d.lifecycle_quarantines.dom().contains(id) {
                    r == Ok::<Option<DownloadStoreData>, PumasError>(None)
                } else if d.lifecycle_quarantines[id].sticky_failure {
                    r matches Err(e) && is_other(
                        e,
                        "Refusing to remove lifecycle failure provenance as clean cancellation"@,
                    )
                } else if d.lifecycle_quarantines[id].disposition != PersistedLifecycleCleanupDisposition::Pending {
                    r == Ok::<Option<DownloadStoreData>, PumasError>(None)
                } else {
                    publishes_one(r, StoreView { lifecycle_quarantines: d.lifecycle_quarantines.remove(id), ..d })
                }
            }),
    {
        let mut data = data;
        reject_queue_mutation(&data, download_id)?;
        match find_key(&data.lifecycle_quarantines, download_id) {
            None => {
                return Ok(None);
            },
            Some(i) => {
                let q = &data.lifecycle_quarantines[i].value;
                if q.sticky_failure {
                    return Err(other_error("Refusing to remove lifecycle failure provenance as clean cancellation"));
                }
                if q.disposition != PersistedLifecycleCleanupDisposition::Pending {
                    return Ok(None);
                }
            },
        }
        let ghost d0 = data@;
        let _ = remove_key(&mut data.lifecycle_quarantines, download_id);
        assert(data@ == StoreView { lifecycle_quarantines: d0.lifecycle_quarantines.remove(download_id@), ..d0 });
        validate_store_data(&data)?;
        Ok(Some(data))
    }

    /// Make a quarantine record a failure (sticky, status `Error`).
    /// `Ok(None)`: there is no quarantine; an already failed one is
    /// republished unchanged.
    pub fn mark_lifecycle_quarantine_failed(&self, data: DownloadStoreData, download_id: &String) -> (r: Result<
        Option<DownloadStoreData>,
        PumasError,
    >)
        requires
            store_wf(data),
        ensures
            ({
                let d = data@;
                let id = download_id@;
                let q = d.lifecycle_quarantines[id];
                if !d.lifecycle_quarantines.dom().contains(id) {
                    r == Ok::<Option<DownloadStoreData>, PumasError>(None)
                } else if q.sticky_failure {
                    publishes_one(r, d)
                } else {
                    publishes_one(
                        r,
                        with_quarantine(
                            d,
                            id,
                            QuarantineView {
                                sticky_failure: true,
                                snapshot: with_status(q.snapshot, DownloadStatus::Error),
                                ..q
                            },
                        ),
                    )
                }
            }),
    {
        let mut data = data;
        let q = match find_key(&data.lifecycle_quarantines, download_id) {
            None => {
                return Ok(None);
            },
            Some(i) => data.lifecycle_quarantines[i].value.dup(),
        };
        if !q.sticky_failure {
            let mut q = q;
            q.sticky_failure = true;
            q.snapshot.status = DownloadStatus::Error;
            set_quarantine(&mut data, download_id, q);
        }
        validate_store_data(&data)?;
        Ok(Some(data))
    }

    /// Confirm the cleanup of a failure quarantine through a two-publication
    /// transition; the plan's answer says whether cleanup ends verified.
    pub fn verify_lifecycle_quarantine(&self, data: DownloadStoreData, download_id: &String) -> (r: Result<
        PublicationPlan,
        PumasError,
    >)
        requires
            store_wf(data),
        ensures
            ({
                let d = data@;
                let id = download_id@;
                let q = d.lifecycle_quarantines[id];
                if !d.lifecycle_quarantines.dom().contains(id) {
                    r matches Ok(p) && !p.result && plan_publishes(p, Seq::empty())
                } else if !q.sticky_failure {
                    r matches Err(e) && is_other(e, "Clean lifecycle quarantine cannot be verified as sticky failure"@)
                } else if q.disposition == PersistedLifecycleCleanupDisposition::PendingIntent {
                    r matches Ok(p) && !p.result && plan_publishes(p, Seq::empty())
                } else if q.disposition == PersistedLifecycleCleanupDisposition::Pending {
                    r matches Ok(p) && p.result && plan_publishes(
                        p,
                        seq![
                            with_disposition(d, id, PersistedLifecycleCleanupDisposition::VerifiedIntent),
                            with_disposition(d, id, PersistedLifecycleCleanupDisposition::Verified),
                        ],
                    )
                } else {
                    r matches Ok(p) && p.result && plan_publishes(
                        p,
                        seq![with_disposition(d, id, PersistedLifecycleCleanupDisposition::Verified)],
                    )
                }
            }),
    {
        let mut data = data;
        let ghost d0 = data@;
        let q = match find_key(&data.lifecycle_quarantines, download_id) {
            None => {
                return Ok(PublicationPlan::new(false));
            },
            Some(i) => data.lifecycle_quarantines[i].value.dup(),
        };
        if !q.sticky_failure {
            return Err(other_error("Clean lifecycle quarantine cannot be verified as sticky failure"));
        }
        let mut plan = PublicationPlan::new(true);
        match q.disposition {
            PersistedLifecycleCleanupDisposition::PendingIntent => {
                return Ok(PublicationPlan::new(false));
            },
            PersistedLifecycleCleanupDisposition::Pending => {
                let mut qi = q.dup();
                qi.disposition = PersistedLifecycleCleanupDisposition::VerifiedIntent;
                set_quarantine(&mut data, download_id, qi);
                if !plan.stage(&data) {
                    return Ok(plan);
                }
            },
            _ => {},
        }
        let ghost d1 = data@;
        let mut qv = q;
        qv.disposition = PersistedLifecycleCleanupDisposition::Verified;
        set_quarantine(&mut data, download_id, qv);
        assert(data@.lifecycle_quarantines =~= with_disposition(
            d0,
            download_id@,
            PersistedLifecycleCleanupDisposition::Verified,
        ).lifecycle_quarantines);
        let _ = plan.stage(&data);
        Ok(plan)
    }

    /// Remove ordinary resumable state and publish a fail-closed cleanup
    /// quarantine (intent, then pending) before any cleanup is attempted.
    pub fn begin_lifecycle_quarantine(
        &self,
        data: DownloadStoreData,
        snapshot: &PersistedDownload,
        domain: LifecycleQuarantineDomain,
        sticky_failure: bool,
    ) -> (r: Result<PublicationPlan, PumasError>)
        requires
            store_wf(data),
        ensures
            ({
                let d = data@;
                let snap = snapshot@;
                let id = snap.download_id;
                let e = d.lifecycle_quarantines[id];
                let s = sticky_failure || (d.lifecycle_quarantines.dom().contains(id) && e.sticky_failure);
                let qsnap = with_status(snap, if s { DownloadStatus::Error } else { DownloadStatus::Cancelling });
                if quarantine_refused(d, snap, domain) {
                    r matches Err(x) && quarantine_refusal(d, snap, domain, x)
                } else if d.lifecycle_quarantines.dom().contains(id) && (e.domain != domain || e.snapshot
                    != with_status(qsnap, e.snapshot.status)) {
                    r matches Err(x) && is_other(x, "Lifecycle quarantine identity mismatch"@)
                } else {
                    r matches Ok(p) && plan_publishes(p, quarantine_documents(d, snap, domain, sticky_failure))
                }
            }),
    {
        check_quarantine_request(&data, snapshot, domain)?;
        quarantine_plan(data, snapshot, domain, sticky_failure)
    }

    /// The tombstone intent for revoking `download_id` under `attempt_id`.
    pub fn revocation_intent_for(&self, data: DownloadStoreData, download_id: &String, attempt_id: String) -> (r:
        Result<DownloadStoreData, PumasError>)
        requires
            store_wf(data),
        ensures
            r is Ok <==> store_valid(revocation_intent(data@, download_id@, attempt_id@)),
            r matches Ok(n) ==> store_wf(n) && n@ == revocation_intent(data@, download_id@, attempt_id@),
            r matches Err(e) ==> store_error(revocation_intent(data@, download_id@, attempt_id@), e),
    {
        let mut data = data;
        let ghost d0 = data@;
        let ghost a = attempt_id@;
        data.downloads = keep_rows_where_id_is_not(&data.downloads, download_id);
        insert_key(
            &mut data.recovery_revocations,
            clone_string(download_id),
            PersistedRecoveryRevocation {
                attempt_id,
                disposition: PersistedRevocationDisposition::DurabilityUnknown,
            },
        );
        assert(data@ == revocation_intent(d0, download_id@, a));
        validate_store_data(&data)?;
        Ok(data)
    }

    /// Decide how to revoke ambient recovery authority for a download. A
    /// fresh attempt id comes from `uuid`; the tombstone intent is published
    /// first, then confirmed.
    pub fn revoke_for_recovery(&self, data: DownloadStoreData, download_id: &String) -> (r: Result<
        RevocationPlan,
        PumasError,
    >)
        requires
            store_wf(data),
        ensures
            ({
                let d = data@;
                let id = download_id@;
                if d.pending_relocations.dom().contains(id) || d.queue_admissions.dom().contains(id) {
                    r matches Err(e) && queue_mutation_error(d, id, e)
                } else if d.recovery_revocations.dom().contains(id) && d.recovery_revocations[id].disposition
                    == PersistedRevocationDisposition::Durable {
                    r matches Ok(RevocationPlan::AlreadyDurable { attempt_id }) && attempt_id@
                        == d.recovery_revocations[id].attempt_id
                } else {
                    match r {
                        Ok(RevocationPlan::PublishIntent { attempt_id, intent }) => uuid_parses(attempt_id@)
                            && store_wf(intent) && intent@ == revocation_intent(d, id, attempt_id@) && store_valid(
                            intent@,
                        ),
                        Ok(_) => false,
                        Err(e) => exists|a: Seq<char>|
                            uuid_parses(a) && !store_valid(#[trigger] revocation_intent(d, id, a)) && store_error(
                                revocation_intent(d, id, a),
                                e,
                            ),
                    }
                }
            }),
    {
        reject_queue_mutation(&data, download_id)?;
        if let Some(i) = find_key(&data.recovery_revocations, download_id) {
            let existing = &data.recovery_revocations[i].value;
            if existing.disposition == PersistedRevocationDisposition::Durable {
                return Ok(RevocationPlan::AlreadyDurable { attempt_id: clone_string(&existing.attempt_id) });
            }
        }
        let attempt_id = new_attempt_id();
        let ghost a = attempt_id@;
        let keep = attempt_id.clone();
        match self.revocation_intent_for(data, download_id, attempt_id) {
            Ok(intent) => Ok(RevocationPlan::PublishIntent { attempt_id: keep, intent }),
            Err(e) => Err(e),
        }
    }

    /// The confirmation that follows a durable tombstone intent.
    pub fn confirm_revocation(&self, intent: DownloadStoreData, download_id: &String) -> (r: Result<
        DownloadStoreData,
        PumasError,
    >)
        requires
            store_wf(intent),
            intent@.recovery_revocations.dom().contains(download_id@),
        ensures
            ({
                let d = intent@;
                let n = StoreView {
                    recovery_revocations: d.recovery_revocations.insert(
                        download_id@,
                        RevocationView {
                            disposition: PersistedRevocationDisposition::Durable,
                            ..d.recovery_revocations[download_id@]
                        },
                    ),
                    ..d
                };
                &&& r is Ok <==> store_valid(n)
                &&& r matches Ok(x) ==> store_wf(x) && x@ == n
                &&& r matches Err(e) ==> store_error(n, e)
            }),
    {
        let mut data = intent;
        let ghost d0 = data@;
        let i = find_key(&data.recovery_revocations, download_id).unwrap();
        let mut rev = data.recovery_revocations[i].value.dup();
        rev.disposition = PersistedRevocationDisposition::Durable;
        insert_key(&mut data.recovery_revocations, clone_string(download_id), rev);
        validate_store_data(&data)?;
        Ok(data)
    }
}

} // verus!
