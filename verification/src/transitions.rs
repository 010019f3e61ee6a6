//! Outcomes of the two-publication admission and revocation protocols.

use crate::error::PumasError;
use crate::publication::{
    error_text, failure_error, kind_name, kind_text, stage_name, stage_text, AtomicPublication,
    AtomicPublishFailure, AtomicPublishFailureKind, AtomicPublishStage, ErrorView, StagingCleanup,
};
use crate::store_model::DownloadAdmissionPosition;
use vstd::prelude::*;
use vstd::string::StringExecFns;

verus! {

/// The error with `context: ` put in front of its message, for the variants
/// that carry a message; any other error is kept unchanged.
pub open spec fn with_context(e: ErrorView, context: Seq<char>) -> ErrorView {
    match e {
        ErrorView::Io { message, path, os_code } => ErrorView::Io {
            message: context + ": "@ + message,
            path,
            os_code,
        },
        ErrorView::Json { message } => ErrorView::Json { message: context + ": "@ + message },
        ErrorView::Validation { field, message } => ErrorView::Validation {
            field,
            message: context + ": "@ + message,
        },
        ErrorView::Other(m) => ErrorView::Other(context + ": "@ + m),
        _ => e,
    }
}

fn prefixed(context: &str, message: &String) -> (r: String)
    ensures
        r@ == context@ + ": "@ + message@,
{
    proof {
        reveal_strlit(": ");
    }
    let mut r = context.to_owned();
    r.append(": ");
    r.append(message.as_str());
    r
}

/// Record the failed operation in the error's message while keeping its
/// variant and its other fields.
pub fn admission_error_context(error: PumasError, context: &str) -> (r: PumasError)
    ensures
        r@ == with_context(error@, context@),
{
    match error {
        PumasError::Io { message, path, os_code } => PumasError::Io {
            message: prefixed(context, &message),
            path,
            os_code,
        },
        PumasError::Json { message } => PumasError::Json { message: prefixed(context, &message) },
        PumasError::Validation { field, message } => PumasError::Validation {
            field,
            message: prefixed(context, &message),
        },
        PumasError::Other(m) => PumasError::Other(prefixed(context, &m)),
        other => other,
    }
}

/// Which publication of a two-phase protocol an outcome belongs to.
#[derive(Clone, Copy, Debug, PartialEq, Eq, Structural)]
pub enum DownloadAdmissionPhase {
    Intent,
    Confirmation,
}

pub open spec fn admission_phase_text(p: DownloadAdmissionPhase) -> Seq<char> {
    match p {
        DownloadAdmissionPhase::Intent => "Intent"@,
        DownloadAdmissionPhase::Confirmation => "Confirmation"@,
    }
}

fn admission_phase_name(p: DownloadAdmissionPhase) -> (r: &'static str)
    ensures
        r@ == admission_phase_text(p),
{
    match p {
        DownloadAdmissionPhase::Intent => "Intent",
        DownloadAdmissionPhase::Confirmation => "Confirmation",
    }
}

/// A durable admission and its FIFO position.
pub struct DurableDownloadAdmission {
    pub position: DownloadAdmissionPosition,
}

/// Outcome of admitting a download.
pub enum DownloadAdmissionTransition {
    Durable { admission: DurableDownloadAdmission },
    NotPublished {
        attempt_id: String,
        phase: DownloadAdmissionPhase,
        stage: AtomicPublishStage,
        kind: AtomicPublishFailureKind,
        error: PumasError,
        cleanup: StagingCleanup,
    },
    PublishedDurabilityUnknown { attempt_id: String, phase: DownloadAdmissionPhase, error: PumasError },
    VisibilityUnknown {
        attempt_id: String,
        phase: DownloadAdmissionPhase,
        error: PumasError,
        cleanup: StagingCleanup,
    },
}

/// `Download admission {attempt} {phase}` followed by `tail`.
pub open spec fn admission_message(attempt: Seq<char>, phase: DownloadAdmissionPhase, tail: Seq<char>) -> Seq<
    char,
> {
    "Download admission "@ + attempt + " "@ + admission_phase_text(phase) + tail
}

fn admission_message_exec(attempt: &String, phase: DownloadAdmissionPhase, tail: &str) -> (r: String)
    ensures
        r@ == admission_message(attempt@, phase, tail@),
{
    proof {
        reveal_strlit("Download admission ");
        reveal_strlit(" ");
    }
    let mut r = "Download admission ".to_owned();
    r.append(attempt.as_str());
    r.append(" ");
    r.append(admission_phase_name(phase));
    r.append(tail);
    r
}

/// The error a non-durable admission outcome reports.
pub open spec fn admission_failure(t: DownloadAdmissionTransition) -> ErrorView {
    match t {
        DownloadAdmissionTransition::NotPublished { attempt_id, phase, stage, kind, error, cleanup } =>
            failure_error(
            with_context(
                error@,
                admission_message(
                    attempt_id@,
                    phase,
                    " was not published at "@ + stage_text(stage) + " ("@ + kind_text(kind) + ")"@,
                ),
            ),
            cleanup,
        ),
        DownloadAdmissionTransition::PublishedDurabilityUnknown { attempt_id, phase, error } =>
            with_context(
            error@,
            admission_message(attempt_id@, phase, " has unknown durability; effects remain blocked"@),
        ),
        DownloadAdmissionTransition::VisibilityUnknown { attempt_id, phase, error, cleanup } =>
            failure_error(
            with_context(
                error@,
                admission_message(attempt_id@, phase, " has unknown visibility; effects remain blocked"@),
            ),
            cleanup,
        ),
        DownloadAdmissionTransition::Durable { .. } => ErrorView::DownloadRootBusy,
    }
}

impl DownloadAdmissionTransition {
    /// The admission when it is durable; otherwise the error, with the
    /// attempt, phase and kind of uncertainty recorded in its message.
    pub fn into_result(self) -> (r: Result<DurableDownloadAdmission, PumasError>)
        ensures
            match self {
                DownloadAdmissionTransition::Durable { admission } => r == Ok::<
                    DurableDownloadAdmission,
                    PumasError,
                >(admission),
                _ => r matches Err(e) && e@ == admission_failure(self),
            },
    {
        let ghost me = self;
        match self {
            DownloadAdmissionTransition::Durable { admission } => Ok(admission),
            DownloadAdmissionTransition::NotPublished { attempt_id, phase, stage, kind, error, cleanup } => {
                proof {
                    reveal_strlit(" was not published at ");
                    reveal_strlit(" (");
                    reveal_strlit(")");
                }
                let mut tail = " was not published at ".to_owned();
                tail.append(stage_name(stage));
                tail.append(" (");
                tail.append(kind_name(kind));
                tail.append(")");
                let context = admission_message_exec(&attempt_id, phase, tail.as_str());
                let error = admission_error_context(error, context.as_str());
                Err(AtomicPublishFailure { stage, kind, error, cleanup }.into_error())
            },
            DownloadAdmissionTransition::PublishedDurabilityUnknown { attempt_id, phase, error } => {
                let context = admission_message_exec(
                    &attempt_id,
                    phase,
                    " has unknown durability; effects remain blocked",
                );
                Err(admission_error_context(error, context.as_str()))
            },
            DownloadAdmissionTransition::VisibilityUnknown { attempt_id, phase, error, cleanup } => {
                let context = admission_message_exec(
                    &attempt_id,
                    phase,
                    " has unknown visibility; effects remain blocked",
                );
                let error = admission_error_context(error, context.as_str());
                Err(
                    AtomicPublishFailure {
                        stage: AtomicPublishStage::Rename,
                        kind: AtomicPublishFailureKind::Filesystem,
                        error,
                        cleanup,
                    }.into_error(),
                )
            },
        }
    }
}

/// `t` reports the non-durable publication for the attempt and phase,
/// carrying its stage, kind, error and cleanup.
pub open spec fn admission_outcome(
    attempt_id: Seq<char>,
    phase: DownloadAdmissionPhase,
    publication: Result<AtomicPublication, AtomicPublishFailure>,
    t: DownloadAdmissionTransition,
) -> bool {
    match publication {
        Ok(AtomicPublication::Durable) => false,
        Err(f) => t matches DownloadAdmissionTransition::NotPublished { attempt_id: a, phase: p, stage, kind, error, cleanup }
            && a@ == attempt_id && p == phase && stage == f.stage && kind == f.kind && error == f.error
            && cleanup == f.cleanup,
        Ok(AtomicPublication::PublishedDurabilityUnknown { error: e0 }) => t matches DownloadAdmissionTransition::PublishedDurabilityUnknown { attempt_id: a, phase: p, error }
            && a@ == attempt_id && p == phase && error == e0,
        Ok(AtomicPublication::VisibilityUnknown { error: e0, cleanup: c0 }) => t matches DownloadAdmissionTransition::VisibilityUnknown { attempt_id: a, phase: p, error, cleanup }
            && a@ == attempt_id && p == phase && error == e0 && cleanup == c0,
    }
}

/// The admission outcome of one publication: `None` when it is durable.
pub fn admission_publication_outcome(
    attempt_id: &str,
    phase: DownloadAdmissionPhase,
    publication: Result<AtomicPublication, AtomicPublishFailure>,
) -> (r: Option<DownloadAdmissionTransition>)
    ensures
        match r {
            None => publication matches Ok(AtomicPublication::Durable),
            Some(t) => admission_outcome(attempt_id@, phase, publication, t),
        },
{
    match publication {
        Ok(AtomicPublication::Durable) => None,
        Err(failure) => Some(
            DownloadAdmissionTransition::NotPublished {
                attempt_id: attempt_id.to_owned(),
                phase,
                stage: failure.stage,
                kind: failure.kind,
                error: failure.error,
                cleanup: failure.cleanup,
            },
        ),
        Ok(AtomicPublication::PublishedDurabilityUnknown { error }) => Some(
            DownloadAdmissionTransition::PublishedDurabilityUnknown {
                attempt_id: attempt_id.to_owned(),
                phase,
                error,
            },
        ),
        Ok(AtomicPublication::VisibilityUnknown { error, cleanup }) => Some(
            DownloadAdmissionTransition::VisibilityUnknown {
                attempt_id: attempt_id.to_owned(),
                phase,
                error,
                cleanup,
            },
        ),
    }
}

/// Which publication of a revocation an outcome belongs to.
#[derive(Clone, Copy, Debug, PartialEq, Eq, Structural)]
pub enum RecoveryRevocationPhase {
    Intent,
    Confirmation,
}

/// Whether a durable revocation was published now or found persisted.
#[derive(Clone, Copy, Debug, PartialEq, Eq, Structural)]
pub enum RecoveryRevocationSource {
    NewlyPublished,
    Persisted,
}

pub open spec fn revocation_phase_text(p: RecoveryRevocationPhase) -> Seq<char> {
    match p {
        RecoveryRevocationPhase::Intent => "Intent"@,
        RecoveryRevocationPhase::Confirmation => "Confirmation"@,
    }
}

fn revocation_phase_name(p: RecoveryRevocationPhase) -> (r: &'static str)
    ensures
        r@ == revocation_phase_text(p),
{
    match p {
        RecoveryRevocationPhase::Intent => "Intent",
        RecoveryRevocationPhase::Confirmation => "Confirmation",
    }
}

/// Result of publishing the removal of ambient recovery authority.
pub enum RecoveryRevocation {
    Durable { source: RecoveryRevocationSource, attempt_id: String },
    NotPublished {
        phase: RecoveryRevocationPhase,
        stage: AtomicPublishStage,
        kind: AtomicPublishFailureKind,
        error: PumasError,
        cleanup: StagingCleanup,
    },
    PublishedDurabilityUnknown { phase: RecoveryRevocationPhase, error: PumasError },
    VisibilityUnknown { phase: RecoveryRevocationPhase, error: PumasError, cleanup: StagingCleanup },
}

/// The message of a non-durable revocation outcome.
pub open spec fn revocation_failure_text(r: RecoveryRevocation) -> Seq<char> {
    match r {
        RecoveryRevocation::NotPublished { phase, error, cleanup, .. } => "Recovery revocation "@
            + revocation_phase_text(phase) + " publication failed: "@ + error_text(
            failure_error(error@, cleanup),
        ),
        RecoveryRevocation::VisibilityUnknown { phase, error, cleanup } => "Recovery revocation "@
            + revocation_phase_text(phase) + " publication failed: "@ + error_text(
            failure_error(error@, cleanup),
        ),
        RecoveryRevocation::PublishedDurabilityUnknown { phase, error } => "Recovery revocation "@
            + revocation_phase_text(phase) + " durability is unknown: "@ + error_text(error@),
        RecoveryRevocation::Durable { .. } => Seq::empty(),
    }
}

fn revocation_text(phase: RecoveryRevocationPhase, middle: &str, error: PumasError) -> (r: String)
    ensures
        r@ == "Recovery revocation "@ + revocation_phase_text(phase) + middle@ + error_text(error@),
{
    proof {
        reveal_strlit("Recovery revocation ");
    }
    let mut text = "Recovery revocation ".to_owned();
    text.append(revocation_phase_name(phase));
    text.append(middle);
    text.append(error.describe().as_str());
    text
}

impl RecoveryRevocation {
    /// `Ok` exactly for a durable revocation; otherwise an `Other` error that
    /// names the phase and the publication error.
    pub fn into_legacy_result(self) -> (r: Result<(), PumasError>)
        ensures
            match self {
                RecoveryRevocation::Durable { .. } => r is Ok,
                _ => r matches Err(e) && e@ == ErrorView::Other(revocation_failure_text(self)),
            },
    {
        let ghost me = self;
        match self {
            RecoveryRevocation::Durable { .. } => Ok(()),
            RecoveryRevocation::NotPublished { phase, stage, kind, error, cleanup } => {
                let error = AtomicPublishFailure { stage, kind, error, cleanup }.into_error();
                Err(PumasError::Other(revocation_text(phase, " publication failed: ", error)))
            },
            RecoveryRevocation::VisibilityUnknown { phase, error, cleanup } => {
                let error = AtomicPublishFailure {
                    stage: AtomicPublishStage::Rename,
                    kind: AtomicPublishFailureKind::Filesystem,
                    error,
                    cleanup,
                }.into_error();
                Err(PumasError::Other(revocation_text(phase, " publication failed: ", error)))
            },
            RecoveryRevocation::PublishedDurabilityUnknown { phase, error } => {
                Err(PumasError::Other(revocation_text(phase, " durability is unknown: ", error)))
            },
        }
    }
}

/// The revocation outcome of one publication: `None` when it is durable.
pub fn revocation_publication_outcome(
    phase: RecoveryRevocationPhase,
    publication: Result<AtomicPublication, AtomicPublishFailure>,
) -> (r: Option<RecoveryRevocation>)
    ensures
        r == match publication {
            Ok(AtomicPublication::Durable) => None,
            Err(f) => Some(
                RecoveryRevocation::NotPublished {
                    phase,
                    stage: f.stage,
                    kind: f.kind,
                    error: f.error,
                    cleanup: f.cleanup,
                },
            ),
            Ok(AtomicPublication::PublishedDurabilityUnknown { error }) => Some(
                RecoveryRevocation::PublishedDurabilityUnknown { phase, error },
            ),
            Ok(AtomicPublication::VisibilityUnknown { error, cleanup }) => Some(
                RecoveryRevocation::VisibilityUnknown { phase, error, cleanup },
            ),
        },
{
    match publication {
        Ok(AtomicPublication::Durable) => None,
        Err(failure) => Some(
            RecoveryRevocation::NotPublished {
                phase,
                stage: failure.stage,
                kind: failure.kind,
                error: failure.error,
                cleanup: failure.cleanup,
            },
        ),
        Ok(AtomicPublication::PublishedDurabilityUnknown { error }) => Some(
            RecoveryRevocation::PublishedDurabilityUnknown { phase, error },
        ),
        Ok(AtomicPublication::VisibilityUnknown { error, cleanup }) => Some(
            RecoveryRevocation::VisibilityUnknown { phase, error, cleanup },
        ),
    }
}

} // verus!
