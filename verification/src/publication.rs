//! Outcomes of atomically publishing a JSON document, and how the download
//! store turns them into results and errors.

use crate::error::PumasError;
use crate::recovery_ticket::{decimal, decimal_text};
use vstd::prelude::*;
use vstd::string::StringExecFns;

verus! {

/// The error as plain values.
pub enum ErrorView {
    Io { message: Seq<char>, path: Option<Seq<char>>, os_code: Option<i32> },
    Json { message: Seq<char> },
    Validation { field: Seq<char>, message: Seq<char> },
    InvalidParams { message: Seq<char> },
    Config { message: Seq<char> },
    DownloadRootBusy,
    SharedInstanceLost { pid: u32, port: u16 },
    Other(Seq<char>),
}

impl View for PumasError {
    type V = ErrorView;

    open spec fn view(&self) -> ErrorView {
        match self {
            PumasError::Io { message, path, os_code } => ErrorView::Io {
                message: message@,
                path: path.deep_view(),
                os_code: *os_code,
            },
            PumasError::Json { message } => ErrorView::Json { message: message@ },
            PumasError::Validation { field, message } => ErrorView::Validation {
                field: field@,
                message: message@,
            },
            PumasError::InvalidParams { message } => ErrorView::InvalidParams { message: message@ },
            PumasError::Config { message } => ErrorView::Config { message: message@ },
            PumasError::DownloadRootBusy => ErrorView::DownloadRootBusy,
            PumasError::SharedInstanceLost { pid, port } => ErrorView::SharedInstanceLost { pid: *pid, port: *port },
            PumasError::Other(m) => ErrorView::Other(m@),
        }
    }
}

/// The human-readable text of an error.
pub open spec fn error_text(e: ErrorView) -> Seq<char> {
    match e {
        ErrorView::Io { message, .. } => message,
        ErrorView::Json { message } => message,
        ErrorView::Validation { field, message } => field + ": "@ + message,
        ErrorView::InvalidParams { message } => message,
        ErrorView::Config { message } => message,
        ErrorView::DownloadRootBusy => "Download root is busy"@,
        ErrorView::SharedInstanceLost { pid, port } => "Lost connection to the primary instance (PID "@ + decimal(
            pid as nat,
        ) + ", port "@ + decimal(port as nat) + ")"@,
        ErrorView::Other(m) => m,
    }
}

impl PumasError {
    /// A copy of the error.
    pub fn duplicate(&self) -> (r: Self)
        ensures
            r@ == self@,
    {
        match self {
            PumasError::Io { message, path, os_code } => PumasError::Io {
                message: message.clone(),
                path: crate::strings::clone_opt_string(path),
                os_code: *os_code,
            },
            PumasError::Json { message } => PumasError::Json { message: message.clone() },
            PumasError::Validation { field, message } => PumasError::Validation {
                field: field.clone(),
                message: message.clone(),
            },
            PumasError::InvalidParams { message } => PumasError::InvalidParams { message: message.clone() },
            PumasError::Config { message } => PumasError::Config { message: message.clone() },
            PumasError::DownloadRootBusy => PumasError::DownloadRootBusy,
            PumasError::SharedInstanceLost { pid, port } => PumasError::SharedInstanceLost { pid: *pid, port: *port },
            PumasError::Other(m) => PumasError::Other(m.clone()),
        }
    }

    /// The human-readable text of the error.
    pub fn describe(&self) -> (r: String)
        ensures
            r@ == error_text(self@),
    {
        proof {
            reveal_strlit(": ");
            reveal_strlit("Download root is busy");
        }
        match self {
            PumasError::Io { message, .. } => message.clone(),
            PumasError::Json { message } => message.clone(),
            PumasError::Validation { field, message } => {
                let mut r = field.clone();
                r.append(": ");
                r.append(message.as_str());
                r
            },
            PumasError::InvalidParams { message } => message.clone(),
            PumasError::Config { message } => message.clone(),
            PumasError::DownloadRootBusy => "Download root is busy".to_owned(),
            PumasError::SharedInstanceLost { pid, port } => {
                proof {
                    reveal_strlit("Lost connection to the primary instance (PID ");
                    reveal_strlit(", port ");
                    reveal_strlit(")");
                }
                let mut r = "Lost connection to the primary instance (PID ".to_owned();
                r.append(decimal_text(*pid as u64).as_str());
                r.append(", port ");
                r.append(decimal_text(*port as u64).as_str());
                r.append(")");
                r
            },
            PumasError::Other(m) => m.clone(),
        }
    }
}

/// Where an atomic publication stopped.
#[derive(Clone, Copy, Debug, PartialEq, Eq, Structural)]
pub enum AtomicPublishStage {
    Staging,
    Rename,
}

/// What kind of fault stopped an atomic publication.
#[derive(Clone, Copy, Debug, PartialEq, Eq, Structural)]
pub enum AtomicPublishFailureKind {
    Filesystem,
}

/// What happened to the staging file after a failed publication.
pub enum StagingCleanup {
    NotRequired,
    Removed,
    Failed { error: PumasError },
}

/// A publication that certainly did not replace the document.
pub struct AtomicPublishFailure {
    pub stage: AtomicPublishStage,
    pub kind: AtomicPublishFailureKind,
    pub error: PumasError,
    pub cleanup: StagingCleanup,
}

/// A publication that may have replaced the document.
pub enum AtomicPublication {
    Durable,
    PublishedDurabilityUnknown { error: PumasError },
    VisibilityUnknown { error: PumasError, cleanup: StagingCleanup },
}

pub open spec fn stage_text(s: AtomicPublishStage) -> Seq<char> {
    match s {
        AtomicPublishStage::Staging => "Staging"@,
        AtomicPublishStage::Rename => "Rename"@,
    }
}

pub open spec fn kind_text(k: AtomicPublishFailureKind) -> Seq<char> {
    match k {
        AtomicPublishFailureKind::Filesystem => "Filesystem"@,
    }
}

pub fn stage_name(s: AtomicPublishStage) -> (r: &'static str)
    ensures
        r@ == stage_text(s),
{
    match s {
        AtomicPublishStage::Staging => "Staging",
        AtomicPublishStage::Rename => "Rename",
    }
}

pub fn kind_name(k: AtomicPublishFailureKind) -> (r: &'static str)
    ensures
        r@ == kind_text(k),
{
    match k {
        AtomicPublishFailureKind::Filesystem => "Filesystem",
    }
}

/// The error of a failed publication: its own error, joined with the
/// cleanup error when staging cleanup failed too.
pub open spec fn failure_error(error: ErrorView, cleanup: StagingCleanup) -> ErrorView {
    match cleanup {
        StagingCleanup::Failed { error: c } => ErrorView::Other(
            error_text(error) + "; staging cleanup also failed: "@ + error_text(c@),
        ),
        _ => error,
    }
}

impl AtomicPublishFailure {
    /// The error a caller sees for this failure.
    pub fn into_error(self) -> (e: PumasError)
        ensures
            e@ == failure_error(self.error@, self.cleanup),
    {
        match self.cleanup {
            StagingCleanup::Failed { error: cleanup } => {
                proof {
                    reveal_strlit("; staging cleanup also failed: ");
                }
                let mut text = self.error.describe();
                text.append("; staging cleanup also failed: ");
                text.append(cleanup.describe().as_str());
                PumasError::Other(text)
            },
            StagingCleanup::NotRequired => self.error,
            StagingCleanup::Removed => self.error,
        }
    }
}

/// The result of requiring a durable publication.
pub open spec fn spec_publication_result(p: Result<AtomicPublication, AtomicPublishFailure>) -> Result<(), ErrorView> {
    match p {
        Ok(AtomicPublication::Durable) => Ok(()),
        Ok(AtomicPublication::PublishedDurabilityUnknown { error }) => Err(error@),
        Ok(AtomicPublication::VisibilityUnknown { error, cleanup }) => Err(failure_error(error@, cleanup)),
        Err(f) => Err(failure_error(f.error@, f.cleanup)),
    }
}

/// Require that a publication is durable; any other outcome is an error.
pub fn publication_result(p: Result<AtomicPublication, AtomicPublishFailure>) -> (r: Result<(), PumasError>)
    ensures
        match (r, spec_publication_result(p)) {
            (Ok(()), Ok(())) => true,
            (Err(e), Err(v)) => e@ == v,
            _ => false,
        },
{
    match p {
        Ok(AtomicPublication::Durable) => Ok(()),
        Ok(AtomicPublication::PublishedDurabilityUnknown { error }) => Err(error),
        Ok(AtomicPublication::VisibilityUnknown { error, cleanup }) => Err(
            AtomicPublishFailure {
                stage: AtomicPublishStage::Rename,
                kind: AtomicPublishFailureKind::Filesystem,
                error,
                cleanup,
            }.into_error(),
        ),
        Err(failure) => Err(failure.into_error()),
    }
}

} // verus!
