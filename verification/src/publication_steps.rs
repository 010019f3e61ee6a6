//! The order in which an admission and a recovery revocation publish their
//! documents. Each run names the document to publish next; after each
//! publication the owner decides whether the run publishes again or is done.

use crate::admission::{admission_promoted, AdmissionPlan};
use crate::error::PumasError;
use crate::lifecycle_ops::RevocationPlan;
use crate::persistence::{DownloadPersistence, PersistenceView};
use crate::publication::{AtomicPublication, AtomicPublishFailure};
use crate::store_check::store_error;
use crate::store_invariant::{store_valid, store_wf};
use crate::store_model::{
    DownloadAdmissionPosition, DownloadAdmissionRequest, DownloadStoreData, PersistedRevocationDisposition,
    RevocationView, StoreView,
};
use crate::transitions::{
    admission_outcome, admission_publication_outcome, revocation_publication_outcome, DownloadAdmissionPhase,
    DownloadAdmissionTransition, RecoveryRevocation, RecoveryRevocationPhase, RecoveryRevocationSource,
};
use vstd::prelude::*;

verus! {

/// An admission between two of its publications.
pub enum AdmissionRun {
    /// The already promoted document is republished as the confirmation.
    Reconfirming { document: DownloadStoreData, position: DownloadAdmissionPosition },
    /// The intent is published first.
    PublishingIntent { intent: DownloadStoreData, position: DownloadAdmissionPosition },
    /// After a durable intent, its promotion is published as the confirmation.
    PublishingPromotion { promoted: DownloadStoreData, position: DownloadAdmissionPosition },
}

/// What follows a publication of an admission run.
pub enum AdmissionStep {
    Publish(AdmissionRun),
    Done(DownloadAdmissionTransition),
}

/// The document a run publishes next.
pub open spec fn admission_pending(run: AdmissionRun) -> DownloadStoreData {
    match run {
        AdmissionRun::Reconfirming { document, .. } => document,
        AdmissionRun::PublishingIntent { intent, .. } => intent,
        AdmissionRun::PublishingPromotion { promoted, .. } => promoted,
    }
}

impl AdmissionRun {
    /// The document to publish now.
    pub fn pending_document(&self) -> (r: &DownloadStoreData)
        ensures
            *r == admission_pending(*self),
    {
        match self {
            AdmissionRun::Reconfirming { document, .. } => document,
            AdmissionRun::PublishingIntent { intent, .. } => intent,
            AdmissionRun::PublishingPromotion { promoted, .. } => promoted,
        }
    }
}

/// An admission plan starts by publishing its first document: the
/// unchanged document of a promoted admission, or the intent.
pub fn begin_admission_run(plan: AdmissionPlan) -> (r: AdmissionRun)
    ensures
        r == match plan {
            AdmissionPlan::Reconfirm { document, position } => AdmissionRun::Reconfirming { document, position },
            AdmissionPlan::PublishIntent { intent, position } => AdmissionRun::PublishingIntent { intent, position },
        },
{
    match plan {
        AdmissionPlan::Reconfirm { document, position } => AdmissionRun::Reconfirming { document, position },
        AdmissionPlan::PublishIntent { intent, position } => AdmissionRun::PublishingIntent { intent, position },
    }
}

/// The owner after a confirmation publication and what the admission
/// reports: a durable confirmation confirms the attempt in this process.
pub open spec fn admission_confirmed(
    before: PersistenceView,
    after: PersistenceView,
    attempt_id: Seq<char>,
    publication: Result<AtomicPublication, AtomicPublishFailure>,
    position: DownloadAdmissionPosition,
    t: DownloadAdmissionTransition,
) -> bool {
    &&& after.path == before.path
    &&& after.confirmed_cleanups == before.confirmed_cleanups
    &&& if publication matches Ok(AtomicPublication::Durable) {
        &&& t matches DownloadAdmissionTransition::Durable { admission } && admission.position == position
        &&& after.confirmed_admissions == before.confirmed_admissions.insert(attempt_id)
    } else {
        &&& after == before
        &&& admission_outcome(attempt_id, DownloadAdmissionPhase::Confirmation, publication, t)
    }
}

impl DownloadPersistence {
    /// Decide what follows the publication of a run's pending document.
    pub fn advance_admission(
        &mut self,
        run: AdmissionRun,
        attempt_id: &str,
        request: &DownloadAdmissionRequest,
        publication: Result<AtomicPublication, AtomicPublishFailure>,
    ) -> (r: Result<AdmissionStep, PumasError>)
        requires
            run matches AdmissionRun::PublishingIntent { intent, .. } ==> store_wf(intent),
        ensures
            match run {
                AdmissionRun::PublishingIntent { intent, position } => if publication matches Ok(
                    AtomicPublication::Durable,
                ) {
                    let n = admission_promoted(intent@, attempt_id@, request@, position@);
                    &&& final(self)@ == old(self)@
                    &&& store_valid(n) ==> (r matches Ok(AdmissionStep::Publish(next)) && next matches AdmissionRun::PublishingPromotion { promoted, position: p }
                        && store_wf(promoted) && promoted@ == n && p == position)
                    &&& !store_valid(n) ==> (r matches Err(e) && store_error(n, e))
                } else {
                    &&& final(self)@ == old(self)@
                    &&& r matches Ok(AdmissionStep::Done(t)) && admission_outcome(
                        attempt_id@,
                        DownloadAdmissionPhase::Intent,
                        publication,
                        t,
                    )
                },
                AdmissionRun::Reconfirming { position, .. } => r matches Ok(AdmissionStep::Done(t))
                    && admission_confirmed(old(self)@, final(self)@, attempt_id@, publication, position, t),
                AdmissionRun::PublishingPromotion { position, .. } => r matches Ok(AdmissionStep::Done(t))
                    && admission_confirmed(old(self)@, final(self)@, attempt_id@, publication, position, t),
            },
    {
        match run {
            AdmissionRun::PublishingIntent { intent, position } => {
                match admission_publication_outcome(attempt_id, DownloadAdmissionPhase::Intent, publication) {
                    Some(t) => Ok(AdmissionStep::Done(t)),
                    None => {
                        let promoted = self.promote_admission(intent, attempt_id, request, &position)?;
                        Ok(AdmissionStep::Publish(AdmissionRun::PublishingPromotion { promoted, position }))
                    },
                }
            },
            AdmissionRun::Reconfirming { position, .. } => {
                Ok(AdmissionStep::Done(self.complete_admission(attempt_id, publication, position)))
            },
            AdmissionRun::PublishingPromotion { position, .. } => {
                Ok(AdmissionStep::Done(self.complete_admission(attempt_id, publication, position)))
            },
        }
    }
}

/// A recovery revocation between its two publications.
pub enum RevocationRun {
    /// The intent is published first.
    PublishingIntent { attempt_id: String, intent: DownloadStoreData },
    /// After a durable intent, its confirmation is published.
    PublishingConfirmation { attempt_id: String, confirmed: DownloadStoreData },
}

/// What follows a revocation plan or a publication of a revocation run.
pub enum RevocationStep {
    Publish(RevocationRun),
    Done(RecoveryRevocation),
}

impl RevocationRun {
    /// The document to publish now.
    pub fn pending_document(&self) -> (r: &DownloadStoreData)
        ensures
            *r == match *self {
                RevocationRun::PublishingIntent { intent, .. } => intent,
                RevocationRun::PublishingConfirmation { confirmed, .. } => confirmed,
            },
    {
        match self {
            RevocationRun::PublishingIntent { intent, .. } => intent,
            RevocationRun::PublishingConfirmation { confirmed, .. } => confirmed,
        }
    }
}

/// A revocation that is already durable is done; otherwise its intent is
/// published first.
pub fn begin_revocation_run(plan: RevocationPlan) -> (r: RevocationStep)
    ensures
        r == match plan {
            RevocationPlan::AlreadyDurable { attempt_id } => RevocationStep::Done(
                RecoveryRevocation::Durable { source: RecoveryRevocationSource::Persisted, attempt_id },
            ),
            RevocationPlan::PublishIntent { attempt_id, intent } => RevocationStep::Publish(
                RevocationRun::PublishingIntent { attempt_id, intent },
            ),
        },
{
    match plan {
        RevocationPlan::AlreadyDurable { attempt_id } => RevocationStep::Done(
            RecoveryRevocation::Durable { source: RecoveryRevocationSource::Persisted, attempt_id },
        ),
        RevocationPlan::PublishIntent { attempt_id, intent } => RevocationStep::Publish(
            RevocationRun::PublishingIntent { attempt_id, intent },
        ),
    }
}

/// What a revocation reports of a publication in a phase that was not
/// durable.
pub open spec fn revocation_reported(
    phase: RecoveryRevocationPhase,
    publication: Result<AtomicPublication, AtomicPublishFailure>,
) -> Option<RecoveryRevocation> {
    match publication {
        Ok(AtomicPublication::Durable) => None,
        Err(f) => Some(
            RecoveryRevocation::NotPublished { phase, stage: f.stage, kind: f.kind, error: f.error, cleanup: f.cleanup },
        ),
        Ok(AtomicPublication::PublishedDurabilityUnknown { error }) => Some(
            RecoveryRevocation::PublishedDurabilityUnknown { phase, error },
        ),
        Ok(AtomicPublication::VisibilityUnknown { error, cleanup }) => Some(
            RecoveryRevocation::VisibilityUnknown { phase, error, cleanup },
        ),
    }
}

/// The intent document with the download's revocation made durable.
pub open spec fn revocation_confirmed(d: StoreView, id: Seq<char>) -> StoreView {
    StoreView {
        recovery_revocations: d.recovery_revocations.insert(
            id,
            RevocationView { disposition: PersistedRevocationDisposition::Durable, ..d.recovery_revocations[id] },
        ),
        ..d
    }
}

impl DownloadPersistence {
    /// Decide what follows the publication of a revocation run's pending
    /// document.
    pub fn advance_revocation(
        &self,
        run: RevocationRun,
        download_id: &String,
        publication: Result<AtomicPublication, AtomicPublishFailure>,
    ) -> (r: Result<RevocationStep, PumasError>)
        requires
            run matches RevocationRun::PublishingIntent { intent, .. } ==> store_wf(intent)
                && intent@.recovery_revocations.dom().contains(download_id@),
        ensures
            match run {
                RevocationRun::PublishingIntent { attempt_id, intent } => match revocation_reported(
                    RecoveryRevocationPhase::Intent,
                    publication,
                ) {
                    Some(t) => r == Ok::<RevocationStep, PumasError>(RevocationStep::Done(t)),
                    None => {
                        let n = revocation_confirmed(intent@, download_id@);
                        &&& store_valid(n) ==> (r matches Ok(RevocationStep::Publish(next)) && next matches RevocationRun::PublishingConfirmation { attempt_id: a, confirmed }
                            && a == attempt_id && store_wf(confirmed) && confirmed@ == n)
                        &&& !store_valid(n) ==> (r matches Err(e) && store_error(n, e))
                    },
                },
                RevocationRun::PublishingConfirmation { attempt_id, .. } => match revocation_reported(
                    RecoveryRevocationPhase::Confirmation,
                    publication,
                ) {
                    Some(t) => r == Ok::<RevocationStep, PumasError>(RevocationStep::Done(t)),
                    None => r == Ok::<RevocationStep, PumasError>(
                        RevocationStep::Done(
                            RecoveryRevocation::Durable { source: RecoveryRevocationSource::NewlyPublished, attempt_id },
                        ),
                    ),
                },
            },
    {
        match run {
            RevocationRun::PublishingIntent { attempt_id, intent } => {
                match revocation_publication_outcome(RecoveryRevocationPhase::Intent, publication) {
                    Some(t) => Ok(RevocationStep::Done(t)),
                    None => {
                        let confirmed = self.confirm_revocation(intent, download_id)?;
                        Ok(RevocationStep::Publish(RevocationRun::PublishingConfirmation { attempt_id, confirmed }))
                    },
                }
            },
            RevocationRun::PublishingConfirmation { attempt_id, .. } => {
                match revocation_publication_outcome(RecoveryRevocationPhase::Confirmation, publication) {
                    Some(t) => Ok(RevocationStep::Done(t)),
                    None => Ok(
                        RevocationStep::Done(
                            RecoveryRevocation::Durable { source: RecoveryRevocationSource::NewlyPublished, attempt_id },
                        ),
                    ),
                }
            },
        }
    }
}

} // verus!
