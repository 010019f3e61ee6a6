//! Admission of paused fixture downloads through the ordinary store owner.
//!
//! A fixture supplies every material field of its snapshot; only paused
//! snapshots with an explicit payload file list are admitted.

use crate::error::{validation_error, PumasError};
use crate::recovery_ids::{is_portable_relative_path, spec_portable_relative_path};
use crate::recovery_ticket::{DestinationIdentity, FilesystemIdentity};
use crate::store_model::{
    DownloadAdmissionDomain, DownloadAdmissionRequest, DownloadStatus, PersistedDestinationIdentity,
    PersistedDownload,
};
use crate::strings::clone_strings;
use vstd::prelude::*;

verus! {

/// Refuses a fixture snapshot that is not paused.
pub fn check_paused_fixture(snapshot: &PersistedDownload) -> (r: Result<(), PumasError>)
    ensures
        r is Ok <==> snapshot.status == DownloadStatus::Paused,
        r matches Err(e) ==> (e matches PumasError::Validation { field, message }
            && field@ == "fixture.status"@ && message@ == "Admission fixtures must be paused"@),
{
    if matches!(snapshot.status, DownloadStatus::Paused) {
        Ok(())
    } else {
        Err(validation_error("fixture.status", "Admission fixtures must be paused"))
    }
}

/// The admission request for a paused fixture snapshot at a resolved
/// destination: an ambient admission whose requested payload files are the
/// snapshot request's explicit file list and whose execution files are the
/// snapshot's own.
pub fn fixture_admission_request(snapshot: &PersistedDownload, destination: PersistedDestinationIdentity) -> (r:
    Result<DownloadAdmissionRequest, PumasError>)
    ensures
        r is Ok <==> snapshot.status == DownloadStatus::Paused && snapshot.download_request.filenames is Some,
        snapshot.status != DownloadStatus::Paused ==> (r matches Err(e) && e matches PumasError::Validation {
            field,
            message,
        } && field@ == "fixture.status"@ && message@ == "Admission fixtures must be paused"@),
        snapshot.status == DownloadStatus::Paused && snapshot.download_request.filenames is None ==> (r matches Err(
            e,
        ) && e matches PumasError::Validation { field, message } && field@
            == "fixture.download_request.filenames"@ && message@
            == "Admission fixtures require explicit payload files"@),
        r matches Ok(req) ==> {
            &&& req.snapshot@ == snapshot@
            &&& req.domain == DownloadAdmissionDomain::Ambient
            &&& req.destination@ == destination@
            &&& Some(req.requested_payload_files.deep_view()) == snapshot.download_request.filenames.deep_view()
            &&& req.execution_files.deep_view() == snapshot.filenames.deep_view()
        },
{
    check_paused_fixture(snapshot)?;
    match &snapshot.download_request.filenames {
        None => Err(
            validation_error(
                "fixture.download_request.filenames",
                "Admission fixtures require explicit payload files",
            ),
        ),
        Some(files) => Ok(
            DownloadAdmissionRequest {
                snapshot: snapshot.duplicate(),
                domain: DownloadAdmissionDomain::Ambient,
                destination,
                requested_payload_files: clone_strings(files),
                execution_files: clone_strings(&snapshot.filenames),
            },
        ),
    }
}

/// The identity of a destination found below the configured root, given the
/// root's filesystem identity and the destination's path relative to it;
/// `None` when no relative path was found or it is not portable.
pub fn destination_below_root(root: FilesystemIdentity, relative: Option<&str>) -> (r: Option<DestinationIdentity>)
    ensures
        r is Some <==> (relative matches Some(p) && spec_portable_relative_path(p@)),
        r matches Some(d) ==> (d.root == root && (relative matches Some(p) && d.relative@ == p@)),
{
    match relative {
        Some(p) => {
            if is_portable_relative_path(p) {
                Some(DestinationIdentity { root, relative: p.to_owned() })
            } else {
                None
            }
        },
        None => None,
    }
}

} // verus!
