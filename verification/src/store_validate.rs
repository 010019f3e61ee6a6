//! Validation of admission and relocation requests and of the whole store
//! document.

use crate::error::{is_validation, validation_error, PumasError};

use crate::store_model::{
    AdmissionRequestView, DownloadAdmissionRequest, LegacyRelocationRequest, RelocationRequestView,
};
use crate::strings::strings_contain;
use crate::text::{is_blank, is_blank_exec};

use vstd::prelude::*;

verus! {

pub open spec fn no_duplicates(s: Seq<Seq<char>>) -> bool {
    forall|i: int, j: int| 0 <= i < s.len() && 0 <= j < s.len() && i != j ==> #[trigger] s[i] != #[trigger] s[j]
}

pub open spec fn none_blank(s: Seq<Seq<char>>) -> bool {
    forall|i: int| 0 <= i < s.len() ==> !is_blank(#[trigger] s[i])
}

/// Unique, non-blank file names.
pub open spec fn valid_file_list(s: Seq<Seq<char>>) -> bool {
    none_blank(s) && no_duplicates(s)
}

pub open spec fn subset_of(a: Seq<Seq<char>>, b: Seq<Seq<char>>) -> bool {
    forall|i: int| 0 <= i < a.len() ==> b.contains(#[trigger] a[i])
}

pub open spec fn admission_request_ids_ok(r: AdmissionRequestView) -> bool {
    !is_blank(r.snapshot.download_id)
}

pub open spec fn admission_request_destination_ok(r: AdmissionRequestView) -> bool {
    !is_blank(r.destination.library_root) && !is_blank(r.destination.relative_target)
}

pub open spec fn admission_request_files_present(r: AdmissionRequestView) -> bool {
    r.requested_payload_files.len() > 0 && r.execution_files.len() > 0
}

pub open spec fn admission_request_execution_ok(r: AdmissionRequestView) -> bool {
    valid_file_list(r.execution_files) && subset_of(r.requested_payload_files, r.execution_files)
}

/// Everything `validate_admission_request` demands of a request.
pub open spec fn spec_admission_request_valid(r: AdmissionRequestView) -> bool {
    &&& admission_request_ids_ok(r)
    &&& admission_request_destination_ok(r)
    &&& admission_request_files_present(r)
    &&& valid_file_list(r.requested_payload_files)
    &&& admission_request_execution_ok(r)
}

/// Everything `validate_relocation_request` demands of a request.
pub open spec fn spec_relocation_request_valid(r: RelocationRequestView) -> bool {
    &&& !is_blank(r.source.library_root)
    &&& !is_blank(r.source.relative_target)
    &&& !is_blank(r.target.relative_target)
    &&& r.source.library_root == r.target.library_root
    &&& r.source != r.target
    &&& r.target_dir.len() > 0
}

pub fn file_list_valid(files: &Vec<String>) -> (r: bool)
    ensures
        r == valid_file_list(files.deep_view()),
{
    let ghost s = files.deep_view();
    let mut i: usize = 0;
    while i < files.len()
        invariant
            s == files.deep_view(),
            i <= files@.len(),
            forall|a: int| 0 <= a < i ==> !is_blank(#[trigger] s[a]),
            forall|a: int, b: int|
                0 <= a < i && 0 <= b < i && a != b ==> #[trigger] s[a] != #[trigger] s[b],
        decreases files.len() - i,
    {
        if is_blank_exec(files[i].as_str()) {
            assert(!none_blank(s)) by {
                assert(is_blank(s[i as int]));
            }
            return false;
        }
        let mut j: usize = 0;
        while j < i
            invariant
                s == files.deep_view(),
                j <= i < files@.len(),
                forall|b: int| 0 <= b < j ==> s[b] != s[i as int],
            decreases i - j,
        {
            if files[j] == files[i] {
                assert(s[j as int] == s[i as int]);
                return false;
            }
            j = j + 1;
        }
        i = i + 1;
    }
    true
}

/// The error for an invalid admission request: the first rule it breaks.
pub open spec fn admission_request_error(rv: AdmissionRequestView, e: PumasError) -> bool {
    &&& is_validation(e, "downloads.admission_attempts"@)
    &&& e matches PumasError::Validation { message, .. } && message@ == (if !admission_request_ids_ok(rv) {
        "Download admission has an empty download ID"@
    } else if !admission_request_destination_ok(rv) {
        "Download admission has an empty destination identity"@
    } else if !admission_request_files_present(rv) {
        "Download admission requires payload and execution files"@
    } else if !valid_file_list(rv.requested_payload_files) {
        "Download admission payload files must be non-empty and unique"@
    } else {
        "Download admission execution files must be unique and contain the payload"@
    })
}

/// Validate one admission request, reporting the first violated rule.
pub fn validate_admission_request(request: &DownloadAdmissionRequest) -> (r: Result<(), PumasError>)
    ensures
        r is Ok <==> spec_admission_request_valid(request@),
        r matches Err(e) ==> admission_request_error(request@, e),
{
    let field = "downloads.admission_attempts";
    if is_blank_exec(request.snapshot.download_id.as_str()) {
        return Err(validation_error(field, "Download admission has an empty download ID"));
    }
    if is_blank_exec(request.destination.library_root.as_str()) || is_blank_exec(
        request.destination.relative_target.as_str(),
    ) {
        return Err(
            validation_error(field, "Download admission has an empty destination identity"),
        );
    }
    if request.requested_payload_files.len() == 0 || request.execution_files.len() == 0 {
        return Err(
            validation_error(field, "Download admission requires payload and execution files"),
        );
    }
    if !file_list_valid(&request.requested_payload_files) {
        return Err(
            validation_error(
                field,
                "Download admission payload files must be non-empty and unique",
            ),
        );
    }
    let mut subset = file_list_valid(&request.execution_files);
    let mut i: usize = 0;
    while subset && i < request.requested_payload_files.len()
        invariant
            i <= request.requested_payload_files@.len(),
            subset ==> forall|a: int|
                0 <= a < i ==> request.execution_files.deep_view().contains(
                    #[trigger] request.requested_payload_files.deep_view()[a],
                ),
            subset ==> valid_file_list(request.execution_files.deep_view()),
            !subset ==> !admission_request_execution_ok(request@),
        decreases request.requested_payload_files.len() - i,
    {
        if !strings_contain(&request.execution_files, &request.requested_payload_files[i]) {
            assert(request.requested_payload_files.deep_view()[i as int]
                == request.requested_payload_files@[i as int]@);
            subset = false;
        }
        i = i + 1;
    }
    if !subset {
        return Err(
            validation_error(
                field,
                "Download admission execution files must be unique and contain the payload",
            ),
        );
    }
    Ok(())
}

pub fn relocation_error(message: &str) -> (e: PumasError)
    ensures
        e matches PumasError::Validation { field: f, message: m } && f@
            == "downloads.pending_relocations"@ && m@ == message@,
{
    validation_error("downloads.pending_relocations", message)
}

/// Validate one relocation request.
pub fn validate_relocation_request(request: &LegacyRelocationRequest) -> (r: Result<(), PumasError>)
    ensures
        r is Ok <==> spec_relocation_request_valid(request@),
        r matches Err(e) ==> e matches PumasError::Validation { field, message } && field@
            == "downloads.pending_relocations"@ && message@
            == "Relocation requires distinct destinations under the same root"@,
{
    if is_blank_exec(request.source.library_root.as_str()) || is_blank_exec(
        request.source.relative_target.as_str(),
    ) || is_blank_exec(request.target.relative_target.as_str())
        || request.source.library_root != request.target.library_root || request.source.same_as(
        &request.target,
    ) || request.target_dir.as_str().is_empty() {
        return Err(relocation_error("Relocation requires distinct destinations under the same root"));
    }
    Ok(())
}

} // verus!
