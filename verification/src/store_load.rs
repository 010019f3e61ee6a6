//! Reading a stored document of any supported schema as the current one.

use crate::error::PumasError;
use crate::keyed::{insert_key, keyed_map, keys_sorted, keys_unique, Keyed};
use crate::persistence::{empty_store, DownloadPersistence};
use crate::publication::ErrorView;
use crate::store_check::{store_error, validate_store_data};
use crate::store_invariant::{store_valid, store_wf};
use crate::store_model::{
    downloads_view, DownloadStoreData, PersistedAdmissionAttempt, PersistedDownload,
    PersistedLegacyRelocation, PersistedLifecycleQuarantine, PersistedQueueAdmission,
    PersistedRecoveryRevocation, StoreView,
};
use vstd::prelude::*;
use vstd::string::StringExecFns;

verus! {

/// The `schema_version` member of a stored document, as read.
pub enum SchemaVersionField {
    Absent,
    Unsigned(u64),
    /// Present but not an unsigned integer.
    Other,
}

/// The schema a stored document is parsed with.
#[derive(Clone, Copy, Debug, PartialEq, Eq, Structural)]
pub enum StoreSchema {
    Current,
    VersionTwo,
    VersionOne,
    Legacy,
}

/// A stored document after parsing with its schema; record maps are given
/// as their entries in document order.
pub enum ParsedStoreDocument {
    Missing,
    Current {
        schema_version: u32,
        downloads: Vec<PersistedDownload>,
        recovery_revocations: Vec<Keyed<PersistedRecoveryRevocation>>,
        lifecycle_quarantines: Vec<Keyed<PersistedLifecycleQuarantine>>,
        admission_attempts: Vec<Keyed<PersistedAdmissionAttempt>>,
        queue_admissions: Vec<Keyed<PersistedQueueAdmission>>,
        released_queue_admissions: Vec<Keyed<PersistedQueueAdmission>>,
        pending_relocations: Vec<Keyed<PersistedLegacyRelocation>>,
    },
    VersionTwo { downloads: Vec<PersistedDownload>, recovery_revocations: Vec<Keyed<PersistedRecoveryRevocation>> },
    VersionOne { downloads: Vec<PersistedDownload> },
    Legacy { downloads: Vec<PersistedDownload> },
}

/// The map that entries build when a later entry replaces an earlier one
/// with the same key.
pub open spec fn entries_map<V: View>(s: Seq<Keyed<V>>) -> Map<Seq<char>, V::V>
    decreases s.len(),
{
    if s.len() == 0 {
        Map::empty()
    } else {
        entries_map(s.drop_last()).insert(s.last().key@, s.last().value@)
    }
}

/// Collect entries into a record list with unique keys.
pub fn collect_entries<V: View>(entries: Vec<Keyed<V>>) -> (r: Vec<Keyed<V>>)
    ensures
        keys_unique(r@),
        keys_sorted(r@),
        keyed_map(r@) == entries_map(entries@),
{
    let mut out: Vec<Keyed<V>> = Vec::new();
    let mut entries = entries;
    let ghost all = entries@;
    let mut rest: Vec<Keyed<V>> = Vec::new();
    // Reverse so that entries can be taken from the end in document order.
    while entries.len() > 0
        invariant
            rest@.len() + entries@.len() == all.len(),
            entries@ == all.take(entries@.len() as int),
            forall|j: int| 0 <= j < rest@.len() ==> #[trigger] rest@[j] == all[all.len() - 1 - j],
        decreases entries.len(),
    {
        let e = entries.pop().unwrap();
        rest.push(e);
        assert(entries@ =~= all.take(entries@.len() as int));
    }
    assert(keyed_map(out@) =~= Map::empty());
    while rest.len() > 0
        invariant
            keys_unique(out@),
            keys_sorted(out@),
            rest@.len() <= all.len(),
            forall|j: int| 0 <= j < rest@.len() ==> #[trigger] rest@[j] == all[all.len() - 1 - j],
            keyed_map(out@) == entries_map(all.take(all.len() - rest@.len())),
        decreases rest.len(),
    {
        let ghost n = all.len() - rest@.len();
        let e = rest.pop().unwrap();
        assert(e == all[n]);
        assert(all.take(n + 1).drop_last() =~= all.take(n));
        assert(all.take(n + 1).last() == all[n]);
        insert_key(&mut out, e.key, e.value);
    }
    assert(all.take(all.len() as int) =~= all);
    out
}

pub open spec fn document_store(
    schema_version: u32,
    downloads: Seq<PersistedDownload>,
    rr: Seq<Keyed<PersistedRecoveryRevocation>>,
    lq: Seq<Keyed<PersistedLifecycleQuarantine>>,
    aa: Seq<Keyed<PersistedAdmissionAttempt>>,
    qa: Seq<Keyed<PersistedQueueAdmission>>,
    ra: Seq<Keyed<PersistedQueueAdmission>>,
    pr: Seq<Keyed<PersistedLegacyRelocation>>,
) -> StoreView {
    StoreView {
        schema_version,
        downloads: downloads_view(downloads),
        recovery_revocations: entries_map(rr),
        lifecycle_quarantines: entries_map(lq),
        admission_attempts: entries_map(aa),
        queue_admissions: entries_map(qa),
        released_queue_admissions: entries_map(ra),
        pending_relocations: entries_map(pr),
    }
}

/// The current-schema document a parsed document stands for.
pub open spec fn migrated(p: ParsedStoreDocument) -> StoreView {
    match p {
        ParsedStoreDocument::Missing => empty_store(),
        ParsedStoreDocument::Current {
            schema_version,
            downloads,
            recovery_revocations,
            lifecycle_quarantines,
            admission_attempts,
            queue_admissions,
            released_queue_admissions,
            pending_relocations,
        } => document_store(
            schema_version,
            downloads@,
            recovery_revocations@,
            lifecycle_quarantines@,
            admission_attempts@,
            queue_admissions@,
            released_queue_admissions@,
            pending_relocations@,
        ),
        ParsedStoreDocument::VersionTwo { downloads, recovery_revocations } => StoreView {
            downloads: downloads_view(downloads@),
            recovery_revocations: entries_map(recovery_revocations@),
            ..empty_store()
        },
        ParsedStoreDocument::VersionOne { downloads } => StoreView { downloads: downloads_view(downloads@), ..empty_store() },
        ParsedStoreDocument::Legacy { downloads } => StoreView { downloads: downloads_view(downloads@), ..empty_store() },
    }
}

impl DownloadPersistence {
    /// The schema to parse a stored document with, chosen by its
    /// `schema_version` member: none for a legacy document; versions 1, 2
    /// and 3 are supported.
    pub fn select_store_schema(&self, field: SchemaVersionField) -> (r: Result<StoreSchema, PumasError>)
        ensures
            match field {
                SchemaVersionField::Absent => r == Ok::<StoreSchema, PumasError>(StoreSchema::Legacy),
                SchemaVersionField::Unsigned(3) => r == Ok::<StoreSchema, PumasError>(StoreSchema::Current),
                SchemaVersionField::Unsigned(2) => r == Ok::<StoreSchema, PumasError>(StoreSchema::VersionTwo),
                SchemaVersionField::Unsigned(1) => r == Ok::<StoreSchema, PumasError>(StoreSchema::VersionOne),
                _ => r matches Err(e) && e@ == ErrorView::Validation {
                    field: "downloads.schema_version"@,
                    message: "Unsupported download store schema version in "@ + self@.path,
                },
            },
    {
        match field {
            SchemaVersionField::Absent => Ok(StoreSchema::Legacy),
            SchemaVersionField::Unsigned(3) => Ok(StoreSchema::Current),
            SchemaVersionField::Unsigned(2) => Ok(StoreSchema::VersionTwo),
            SchemaVersionField::Unsigned(1) => Ok(StoreSchema::VersionOne),
            _ => {
                proof {
                    reveal_strlit("Unsupported download store schema version in ");
                }
                let mut message = "Unsupported download store schema version in ".to_owned();
                message.append(self.path());
                Err(PumasError::Validation { field: "downloads.schema_version".to_owned(), message })
            },
        }
    }

    /// The current-schema document of a parsed one: a missing document is
    /// empty, and older schemas keep their rows (and version 2 its
    /// revocations) with every other record empty. It must be valid.
    pub fn load_data_strict(&self, parsed: ParsedStoreDocument) -> (r: Result<DownloadStoreData, PumasError>)
        ensures
            r is Ok <==> store_valid(migrated(parsed)),
            r matches Ok(d) ==> store_wf(d) && d@ == migrated(parsed),
            r matches Err(e) ==> store_error(migrated(parsed), e),
    {
        let ghost p = parsed;
        let data = match parsed {
            ParsedStoreDocument::Missing => DownloadStoreData::empty(),
            ParsedStoreDocument::Current {
                schema_version,
                downloads,
                recovery_revocations,
                lifecycle_quarantines,
                admission_attempts,
                queue_admissions,
                released_queue_admissions,
                pending_relocations,
            } => DownloadStoreData {
                schema_version,
                downloads,
                recovery_revocations: collect_entries(recovery_revocations),
                lifecycle_quarantines: collect_entries(lifecycle_quarantines),
                admission_attempts: collect_entries(admission_attempts),
                queue_admissions: collect_entries(queue_admissions),
                released_queue_admissions: collect_entries(released_queue_admissions),
                pending_relocations: collect_entries(pending_relocations),
            },
            ParsedStoreDocument::VersionTwo { downloads, recovery_revocations } => {
                let mut d = DownloadStoreData::empty();
                d.downloads = downloads;
                d.recovery_revocations = collect_entries(recovery_revocations);
                d
            },
            ParsedStoreDocument::VersionOne { downloads } => {
                let mut d = DownloadStoreData::empty();
                d.downloads = downloads;
                d
            },
            ParsedStoreDocument::Legacy { downloads } => {
                let mut d = DownloadStoreData::empty();
                d.downloads = downloads;
                d
            },
        };
        assert(data@ == migrated(p));
        validate_store_data(&data)?;
        Ok(data)
    }
}

/// What the entries give for each key: every key of an entry is present,
/// nothing else is, and a key's value is that of its last entry.
pub proof fn lemma_entries_map<V: View>(s: Seq<Keyed<V>>)
    ensures
        forall|j: int| 0 <= j < s.len() ==> entries_map(s).dom().contains(#[trigger] s[j].key@),
        forall|k: Seq<char>|
            entries_map(s).dom().contains(k) ==> exists|j: int| 0 <= j < s.len() && #[trigger] s[j].key@ == k,
        forall|j: int|
            0 <= j < s.len() && (forall|l: int| j < l < s.len() ==> s[l].key@ != s[j].key@) ==> entries_map(s)[
                #[trigger] s[j].key@] == s[j].value@,
    decreases s.len(),
{
    if s.len() > 0 {
        let t = s.drop_last();
        lemma_entries_map(t);
        assert(entries_map(s) == entries_map(t).insert(s.last().key@, s.last().value@));
        assert forall|j: int| 0 <= j < s.len() implies entries_map(s).dom().contains(#[trigger] s[j].key@) by {
            if j < s.len() - 1 {
                assert(s[j] == t[j]);
            }
        }
        assert forall|k: Seq<char>| entries_map(s).dom().contains(k) implies exists|j: int|
            0 <= j < s.len() && #[trigger] s[j].key@ == k by {
            if k != s.last().key@ {
                assert(entries_map(t).dom().contains(k));
                let j = choose|j: int| 0 <= j < t.len() && #[trigger] t[j].key@ == k;
                assert(s[j] == t[j]);
            } else {
                assert(s[s.len() - 1].key@ == k);
            }
        }
        assert forall|j: int|
            0 <= j < s.len() && (forall|l: int| j < l < s.len() ==> s[l].key@ != s[j].key@) implies entries_map(s)[
            #[trigger] s[j].key@] == s[j].value@ by {
            if j < s.len() - 1 {
                assert(s[j] == t[j]);
                assert(s[s.len() - 1].key@ != s[j].key@);
                assert forall|l: int| j < l < t.len() implies t[l].key@ != t[j].key@ by {
                    assert(s[l] == t[l]);
                }
            }
        }
    }
}

/// Migrating a schema-2 document keeps its rows and its recovery
/// revocations: every revoked download stays revoked, with its last
/// recorded revocation, no other download becomes revoked, and every record
/// that schema 2 lacks starts empty.
pub proof fn law_schema_two_migration_keeps_revocations(
    downloads: Vec<PersistedDownload>,
    recovery_revocations: Vec<Keyed<PersistedRecoveryRevocation>>,
)
    ensures
        ({
            let d = migrated(ParsedStoreDocument::VersionTwo { downloads, recovery_revocations });
            let revs = recovery_revocations@;
            &&& d.schema_version == empty_store().schema_version
            &&& d.downloads == downloads_view(downloads@)
            &&& forall|j: int| 0 <= j < revs.len() ==> d.recovery_revocations.dom().contains(#[trigger] revs[j].key@)
            &&& forall|k: Seq<char>|
                d.recovery_revocations.dom().contains(k) ==> exists|j: int| 0 <= j < revs.len() && #[trigger] revs[j].key@ == k
            &&& forall|j: int|
                0 <= j < revs.len() && (forall|l: int| j < l < revs.len() ==> revs[l].key@ != revs[j].key@)
                    ==> d.recovery_revocations[#[trigger] revs[j].key@] == revs[j].value@
            &&& d.lifecycle_quarantines.dom().len() == 0
            &&& d.admission_attempts.dom().len() == 0
            &&& d.queue_admissions.dom().len() == 0
            &&& d.released_queue_admissions.dom().len() == 0
            &&& d.pending_relocations.dom().len() == 0
        }),
{
    lemma_entries_map(recovery_revocations@);
}

/// A current-schema document is taken as it is: its version and rows, and
/// each record map as its entries give it, with the last entry of a key
/// winning; a missing document is the empty store.
pub proof fn law_current_document_is_taken_as_is(parsed: ParsedStoreDocument)
    ensures
        parsed is Missing ==> migrated(parsed) == empty_store(),
        match parsed {
            ParsedStoreDocument::Current {
                schema_version,
                downloads,
                recovery_revocations,
                lifecycle_quarantines,
                admission_attempts,
                queue_admissions,
                released_queue_admissions,
                pending_relocations,
            } => {
                let d = migrated(parsed);
                &&& d.schema_version == schema_version
                &&& d.downloads == downloads_view(downloads@)
                &&& d.recovery_revocations == entries_map(recovery_revocations@)
                &&& d.lifecycle_quarantines == entries_map(lifecycle_quarantines@)
                &&& d.admission_attempts == entries_map(admission_attempts@)
                &&& d.queue_admissions == entries_map(queue_admissions@)
                &&& d.released_queue_admissions == entries_map(released_queue_admissions@)
                &&& d.pending_relocations == entries_map(pending_relocations@)
            },
            _ => true,
        },
{
}

/// Migrating a schema-1 or legacy document keeps every row, in order, and
/// starts every other record empty.
pub proof fn law_older_migration_keeps_rows(downloads: Vec<PersistedDownload>)
    ensures
        migrated(ParsedStoreDocument::VersionOne { downloads }).downloads == downloads_view(downloads@),
        migrated(ParsedStoreDocument::Legacy { downloads }).downloads == downloads_view(downloads@),
        migrated(ParsedStoreDocument::VersionOne { downloads }).recovery_revocations.dom().len() == 0,
        migrated(ParsedStoreDocument::Legacy { downloads }).recovery_revocations.dom().len() == 0,
{
}

} // verus!
