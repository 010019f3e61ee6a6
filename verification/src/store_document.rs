//! Operations on the stored document as it was read: each one loads the
//! document strictly and acts on it only when the whole document is valid.

use crate::admission::{admit_outcome, AdmissionPlan};
use crate::admission_queue::{next_admission_position, next_position_ok};
use crate::error::PumasError;
use crate::inventory::{
    confirmed_queue, exposed_quarantines, hidden_admissions, parked_relocations, PersistedDownloadInventory,
};
use crate::keyed::{keyed_map, keys_unique};
use crate::persistence::DownloadPersistence;
use crate::relocation_ops::relocation_settled;
use crate::store_check::store_error;
use crate::store_invariant::store_valid;
use crate::store_load::{migrated, ParsedStoreDocument};
use crate::store_model::{
    downloads_view, DownloadAdmissionPosition, DownloadAdmissionRequest, DownloadStoreData,
    PersistedDestinationIdentity,
};
use crate::store_ops::visible_row;
use crate::store_validate::{spec_admission_request_valid, validate_admission_request};
use crate::uuid_text::{uuid_parse_error, uuid_parses};
use vstd::string::StringExecFns;
use crate::store_rows::keep_rows;
use vstd::prelude::*;

verus! {

/// An invalid document is refused with the error its validation gives.
pub open spec fn refused_as_invalid<T>(doc: ParsedStoreDocument, r: Result<T, PumasError>) -> bool {
    r matches Err(e) && store_error(migrated(doc), e)
}

impl DownloadPersistence {
    /// Admit a download into the stored document. The attempt id and the
    /// request are checked before the document is read.
    pub fn admit_download_document(
        &self,
        parsed: ParsedStoreDocument,
        attempt_id: &str,
        request: &DownloadAdmissionRequest,
    ) -> (r: Result<AdmissionPlan, PumasError>)
        ensures
            !uuid_parses(attempt_id@) || !spec_admission_request_valid(request@) || store_valid(migrated(parsed))
                ==> admit_outcome(migrated(parsed), attempt_id@, request@, r),
            uuid_parses(attempt_id@) && spec_admission_request_valid(request@) && !store_valid(migrated(parsed))
                ==> refused_as_invalid(parsed, r),
    {
        proof {
            reveal_strlit("Invalid download admission attempt: ");
        }
        match uuid_parse_error(attempt_id) {
            Some(source) => {
                let mut message = "Invalid download admission attempt: ".to_owned();
                message.append(source.as_str());
                return Err(
                    PumasError::Validation { field: "downloads.admission_attempts".to_owned(), message },
                );
            },
            None => {},
        }
        match validate_admission_request(request) {
            Err(e) => return Err(e),
            Ok(()) => {},
        }
        match self.load_data_strict(parsed) {
            Err(e) => Err(e),
            Ok(data) => self.admit_download(data, attempt_id, request),
        }
    }

    /// The next queue position of a destination in the stored document.
    pub fn next_admission_position_document(
        &self,
        parsed: ParsedStoreDocument,
        destination: &PersistedDestinationIdentity,
    ) -> (r: Result<DownloadAdmissionPosition, PumasError>)
        ensures
            !store_valid(migrated(parsed)) ==> refused_as_invalid(parsed, r),
            store_valid(migrated(parsed)) ==> next_position_ok(migrated(parsed), destination@, r),
    {
        match self.load_data_strict(parsed) {
            Err(e) => Err(e),
            Ok(data) => next_admission_position(&data, destination),
        }
    }

    /// The lifecycle inventory of the stored document.
    pub fn lifecycle_inventory_document(&self, parsed: ParsedStoreDocument) -> (r: Result<
        PersistedDownloadInventory,
        PumasError,
    >)
        ensures
            !store_valid(migrated(parsed)) ==> refused_as_invalid(parsed, r),
            store_valid(migrated(parsed)) ==> r is Ok,
            r matches Ok(inv) ==> {
                let d = migrated(parsed);
                &&& downloads_view(inv.downloads@) == keep_rows(
                    d.downloads,
                    visible_row(d, self@.confirmed_admissions),
                )
                &&& keys_unique(inv.quarantines@)
                &&& keyed_map(inv.quarantines@) == exposed_quarantines(d, self@.confirmed_cleanups)
                &&& keys_unique(inv.hidden_admissions@)
                &&& keyed_map(inv.hidden_admissions@) == hidden_admissions(d, self@.confirmed_admissions)
                &&& keys_unique(inv.queue_admissions@)
                &&& keyed_map(inv.queue_admissions@) == confirmed_queue(d, self@.confirmed_admissions)
                &&& keys_unique(inv.pending_relocations@)
                &&& keyed_map(inv.pending_relocations@) == parked_relocations(d)
            },
    {
        match self.load_data_strict(parsed) {
            Err(e) => Err(e),
            Ok(data) => Ok(self.load_lifecycle_inventory_strict(&data)),
        }
    }

    /// Settle a pending relocation of the stored document after the move.
    pub fn finish_legacy_relocation_document(
        &self,
        parsed: ParsedStoreDocument,
        download_id: &String,
        attempt_id: &String,
    ) -> (r: Result<DownloadStoreData, PumasError>)
        ensures
            !store_valid(migrated(parsed)) ==> refused_as_invalid(parsed, r),
            store_valid(migrated(parsed)) ==> relocation_settled(
                migrated(parsed),
                download_id@,
                attempt_id@,
                true,
                r,
            ),
    {
        match self.load_data_strict(parsed) {
            Err(e) => Err(e),
            Ok(data) => self.finish_legacy_relocation(data, download_id, attempt_id),
        }
    }

    /// Settle a pending relocation of the stored document after a proved
    /// non-move.
    pub fn abort_legacy_relocation_document(
        &self,
        parsed: ParsedStoreDocument,
        download_id: &String,
        attempt_id: &String,
    ) -> (r: Result<DownloadStoreData, PumasError>)
        ensures
            !store_valid(migrated(parsed)) ==> refused_as_invalid(parsed, r),
            store_valid(migrated(parsed)) ==> relocation_settled(
                migrated(parsed),
                download_id@,
                attempt_id@,
                false,
                r,
            ),
    {
        match self.load_data_strict(parsed) {
            Err(e) => Err(e),
            Ok(data) => self.abort_legacy_relocation(data, download_id, attempt_id),
        }
    }
}

} // verus!
