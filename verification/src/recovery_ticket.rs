//! Recovery tickets: a BLAKE3 fingerprint of one recovery-relevant model
//! state, checked again before a recovery action runs.

use crate::error::PumasError;
use crate::recovery_ids::{
    is_lower_hex, spec_valid_repo_id, spec_valid_token, DownloadRecoveryToken,
};
use crate::recovery_meta::{
    file_list_ok, invalid_metadata, invalid_recovery_metadata, lists_members, optional_file_set,
    optional_text, text_field, validate_repo_id, MetadataValue, MetadataValueView, RecoveryMetadata,
    RecoveryRequest,
};
use crate::store_model::PersistedDestinationIdentity;
use vstd::prelude::*;
use vstd::string::StringExecFns;
use vstd::utf8::encode_utf8;

verus! {

/// What the metadata of a record asks recovery to download.
pub open spec fn request_outcome(m: RecoveryMetadata, r: Result<Option<RecoveryRequest>, PumasError>) -> bool {
    if !m.is_object || !(m.download_incomplete@ is Bool) {
        r matches Err(e) && invalid_metadata(e)
    } else if m.download_incomplete@ == MetadataValueView::Bool(false) {
        r matches Ok(None)
    } else if text_field(m.repo_id@) is None {
        r matches Err(e) && invalid_metadata(e)
    } else if text_field(m.repo_id@) == Some(None::<Seq<char>>) {
        r matches Ok(None)
    } else if !spec_valid_repo_id(text_field(m.repo_id@).unwrap().unwrap()) || text_field(m.selected_artifact_id@) is None
        || text_field(m.selected_artifact_quant@) is None || !file_list_ok(m.selected_artifact_files@) || !file_list_ok(
        m.expected_files@,
    ) {
        r matches Err(e) && invalid_metadata(e)
    } else {
        let chosen = if crate::recovery_meta::file_list_members(m.selected_artifact_files@).is_empty() {
            m.expected_files@
        } else {
            m.selected_artifact_files@
        };
        if crate::recovery_meta::file_list_members(chosen).is_empty() {
            r matches Ok(None)
        } else {
            r matches Ok(Some(q)) && q.repo_id@ == text_field(m.repo_id@).unwrap().unwrap()
                && q.selected_artifact_id.deep_view() == text_field(m.selected_artifact_id@).unwrap()
                && q.selected_artifact_quant.deep_view() == text_field(m.selected_artifact_quant@).unwrap()
                && lists_members(q.files.deep_view(), chosen)
        }
    }
}

/// Read what recovery would download: nothing for a complete download or a
/// record without a repository or files; an error for malformed metadata.
pub fn recovery_request(m: &RecoveryMetadata) -> (r: Result<Option<RecoveryRequest>, PumasError>)
    ensures
        request_outcome(*m, r),
{
    if !m.is_object {
        return Err(invalid_recovery_metadata());
    }
    let incomplete = match &m.download_incomplete {
        MetadataValue::Bool(b) => *b,
        _ => {
            return Err(invalid_recovery_metadata());
        },
    };
    if !incomplete {
        return Ok(None);
    }
    let repo_id = match optional_text(&m.repo_id)? {
        Some(r) => r,
        None => {
            return Ok(None);
        },
    };
    validate_repo_id(repo_id.as_str())?;
    let selected_artifact_id = optional_text(&m.selected_artifact_id)?;
    let selected_artifact_quant = optional_text(&m.selected_artifact_quant)?;
    let selected = optional_file_set(&m.selected_artifact_files)?;
    let expected = optional_file_set(&m.expected_files)?;
    proof {
        let s = selected.deep_view();
        let e = expected.deep_view();
        if s.len() > 0 {
            assert(s.contains(s[0]));
        }
        if e.len() > 0 {
            assert(e.contains(e[0]));
        }
        if s.len() == 0 {
            assert(crate::recovery_meta::file_list_members(m.selected_artifact_files@) =~= Set::empty()) by {
                assert forall|x: Seq<char>| !crate::recovery_meta::file_list_members(m.selected_artifact_files@).contains(x) by {
                    assert(!s.contains(x));
                }
            }
        }
        if e.len() == 0 {
            assert(crate::recovery_meta::file_list_members(m.expected_files@) =~= Set::empty()) by {
                assert forall|x: Seq<char>| !crate::recovery_meta::file_list_members(m.expected_files@).contains(x) by {
                    assert(!e.contains(x));
                }
            }
        }
    }
    let files = if selected.len() == 0 {
        expected
    } else {
        selected
    };
    if files.len() == 0 {
        return Ok(None);
    }
    proof {
        let f = files.deep_view();
        assert(f.contains(f[0]));
    }
    Ok(Some(RecoveryRequest { repo_id, selected_artifact_id, selected_artifact_quant, files }))
}

/// The eight big-endian bytes of `n`.
pub open spec fn u64_be(n: u64) -> Seq<u8> {
    seq![
        (n >> 56u64) as u8,
        (n >> 48u64) as u8,
        (n >> 40u64) as u8,
        (n >> 32u64) as u8,
        (n >> 24u64) as u8,
        (n >> 16u64) as u8,
        (n >> 8u64) as u8,
        n as u8,
    ]
}

fn push_u64_be(out: &mut Vec<u8>, n: u64)
    ensures
        final(out)@ == old(out)@ + u64_be(n),
{
    out.push((n >> 56u64) as u8);
    out.push((n >> 48u64) as u8);
    out.push((n >> 40u64) as u8);
    out.push((n >> 32u64) as u8);
    out.push((n >> 24u64) as u8);
    out.push((n >> 16u64) as u8);
    out.push((n >> 8u64) as u8);
    out.push(n as u8);
    assert(out@ =~= old(out)@ + u64_be(n));
}

fn push_bytes(out: &mut Vec<u8>, bytes: &[u8])
    ensures
        final(out)@ == old(out)@ + bytes@,
{
    let ghost start = out@;
    let mut i: usize = 0;
    while i < bytes.len()
        invariant
            i <= bytes@.len(),
            out@ == start + bytes@.take(i as int),
        decreases bytes.len() - i,
    {
        out.push(bytes[i]);
        assert(bytes@.take(i + 1) =~= bytes@.take(i as int).push(bytes@[i as int]));
        assert(out@ =~= start + bytes@.take(i + 1));
        i = i + 1;
    }
    assert(bytes@.take(bytes@.len() as int) =~= bytes@);
}

/// A length-prefixed UTF-8 text.
pub open spec fn text_bytes(s: Seq<char>) -> Seq<u8> {
    u64_be(encode_utf8(s).len() as u64) + encode_utf8(s)
}

pub open spec fn optional_text_bytes(s: Option<Seq<char>>) -> Seq<u8> {
    match s {
        Some(t) => seq![1u8] + text_bytes(t),
        None => seq![0u8],
    }
}

pub open spec fn texts_bytes(fs: Seq<Seq<char>>) -> Seq<u8>
    decreases fs.len(),
{
    if fs.len() == 0 {
        Seq::empty()
    } else {
        texts_bytes(fs.drop_last()) + text_bytes(fs.last())
    }
}

fn push_text(out: &mut Vec<u8>, s: &str)
    ensures
        final(out)@ == old(out)@ + text_bytes(s@),
{
    let bytes = s.as_bytes();
    push_u64_be(out, bytes.len() as u64);
    push_bytes(out, bytes);
    assert(out@ =~= old(out)@ + text_bytes(s@));
}

fn push_optional_text(out: &mut Vec<u8>, s: &Option<String>)
    ensures
        final(out)@ == old(out)@ + optional_text_bytes(s.deep_view()),
{
    match s {
        Some(t) => {
            out.push(1u8);
            let ghost mid = out@;
            push_text(out, t.as_str());
            assert(out@ =~= old(out)@ + optional_text_bytes(s.deep_view()));
        },
        None => {
            out.push(0u8);
            assert(out@ =~= old(out)@ + optional_text_bytes(s.deep_view()));
        },
    }
}

/// Identity of a directory on its filesystem.
#[derive(Clone, Copy, Debug, PartialEq, Eq, Structural)]
pub struct FilesystemIdentity {
    pub volume: u64,
    pub file: u64,
}

/// One recovery-relevant model state.
pub struct RecoverySnapshot {
    pub model_id: String,
    pub canonical_model_dir: String,
    pub root_identity: FilesystemIdentity,
    pub repo_id: String,
    pub selected_artifact_id: Option<String>,
    pub selected_artifact_files: Vec<String>,
    pub selected_artifact_quant: Option<String>,
}

pub open spec fn token_domain() -> Seq<u8> {
    encode_utf8("pumas-download-recovery\u{0}v1"@)
}

/// The bytes a snapshot's token digests, in order: the domain, the model id
/// and directory, the root identity, the repository, the optional artifact
/// id and quantization, and the counted file list.
pub open spec fn token_preimage(s: RecoverySnapshot) -> Seq<u8> {
    token_domain() + text_bytes(s.model_id@) + text_bytes(s.canonical_model_dir@) + u64_be(s.root_identity.volume)
        + u64_be(s.root_identity.file) + text_bytes(s.repo_id@) + optional_text_bytes(
        s.selected_artifact_id.deep_view(),
    ) + optional_text_bytes(s.selected_artifact_quant.deep_view()) + u64_be(
        s.selected_artifact_files@.len() as u64,
    ) + texts_bytes(s.selected_artifact_files.deep_view())
}

/// The lowercase hexadecimal BLAKE3 digest of the bytes.
pub uninterp spec fn blake3_hex(bytes: Seq<u8>) -> Seq<char>;

/// Hashes the bytes with `blake3::Hasher` (one `update`, then `finalize`)
/// and renders the hash with `to_hex`. The contract names the digest and
/// states what `to_hex` shows: 64 lowercase hexadecimal digits.
#[verifier::external_body]
fn blake3_digest_hex(bytes: &[u8]) -> (r: String)
    ensures
        r@ == blake3_hex(bytes@),
        r@.len() == 64,
        forall|i: int| 0 <= i < 64 ==> is_lower_hex(#[trigger] r@[i]),
{
    let mut hasher = blake3::Hasher::new();
    hasher.update(bytes);
    hasher.finalize().to_hex().to_string()
}

/// The token of a snapshot: `v1:` and the digest of its preimage.
pub open spec fn snapshot_token(s: RecoverySnapshot) -> Seq<char> {
    "v1:"@ + blake3_hex(token_preimage(s))
}

impl RecoverySnapshot {
    /// The fingerprint of this state.
    pub fn token(&self) -> (t: DownloadRecoveryToken)
        ensures
            t@ == snapshot_token(*self),
            spec_valid_token(t@),
    {
        let mut bytes: Vec<u8> = Vec::new();
        push_bytes(&mut bytes, "pumas-download-recovery\u{0}v1".as_bytes());
        push_text(&mut bytes, self.model_id.as_str());
        push_text(&mut bytes, self.canonical_model_dir.as_str());
        push_u64_be(&mut bytes, self.root_identity.volume);
        push_u64_be(&mut bytes, self.root_identity.file);
        push_text(&mut bytes, self.repo_id.as_str());
        push_optional_text(&mut bytes, &self.selected_artifact_id);
        push_optional_text(&mut bytes, &self.selected_artifact_quant);
        push_u64_be(&mut bytes, self.selected_artifact_files.len() as u64);
        let ghost head = bytes@;
        let files = &self.selected_artifact_files;
        let mut i: usize = 0;
        while i < files.len()
            invariant
                i <= files@.len(),
                bytes@ == head + texts_bytes(files.deep_view().take(i as int)),
            decreases files.len() - i,
        {
            push_text(&mut bytes, files[i].as_str());
            proof {
                let fv = files.deep_view();
                assert(fv.take(i + 1).drop_last() =~= fv.take(i as int));
                assert(fv.take(i + 1).last() == files@[i as int]@);
                assert(bytes@ =~= head + texts_bytes(fv.take(i + 1)));
            }
            i = i + 1;
        }
        assert(files.deep_view().take(files@.len() as int) =~= files.deep_view());
        assert(bytes@ =~= token_preimage(*self));
        let digest = blake3_digest_hex(bytes.as_slice());
        proof {
            reveal_strlit("v1:");
        }
        let mut text = "v1:".to_owned();
        text.append(digest.as_str());
        proof {
            assert(text@.len() == 67);
            assert(text@[0] == 'v' && text@[1] == '1' && text@[2] == ':');
            assert forall|j: int| 3 <= j < 67 implies is_lower_hex(#[trigger] text@[j]) by {
                assert(text@[j] == digest@[j - 3]);
            }
        }
        DownloadRecoveryToken::from_valid(text)
    }
}

/// Producer-issued display and action precondition for one partial model.
pub struct DownloadRecoveryTicket {
    token: DownloadRecoveryToken,
    repo_id: String,
    selected_artifact_id: Option<String>,
    selected_artifact_files: Vec<String>,
    selected_artifact_quant: Option<String>,
}

pub struct TicketView {
    pub token: Seq<char>,
    pub repo_id: Seq<char>,
    pub selected_artifact_id: Option<Seq<char>>,
    pub selected_artifact_files: Seq<Seq<char>>,
    pub selected_artifact_quant: Option<Seq<char>>,
}

impl View for DownloadRecoveryTicket {
    type V = TicketView;

    closed spec fn view(&self) -> TicketView {
        TicketView {
            token: self.token@,
            repo_id: self.repo_id@,
            selected_artifact_id: self.selected_artifact_id.deep_view(),
            selected_artifact_files: self.selected_artifact_files.deep_view(),
            selected_artifact_quant: self.selected_artifact_quant.deep_view(),
        }
    }
}

impl DownloadRecoveryTicket {
    pub fn token(&self) -> (r: &str)
        ensures
            r@ == self@.token,
    {
        self.token.as_str()
    }

    pub fn repo_id(&self) -> (r: &str)
        ensures
            r@ == self@.repo_id,
    {
        self.repo_id.as_str()
    }

    pub fn selected_artifact_id(&self) -> (r: Option<&str>)
        ensures
            match r {
                Some(s) => self@.selected_artifact_id == Some(s@),
                None => self@.selected_artifact_id is None,
            },
    {
        match &self.selected_artifact_id {
            Some(s) => Some(s.as_str()),
            None => None,
        }
    }

    pub fn selected_artifact_files(&self) -> (r: &[String])
        ensures
            r.deep_view() == self@.selected_artifact_files,
    {
        self.selected_artifact_files.as_slice()
    }

    pub fn selected_artifact_quant(&self) -> (r: Option<&str>)
        ensures
            match r {
                Some(s) => self@.selected_artifact_quant == Some(s@),
                None => self@.selected_artifact_quant is None,
            },
    {
        match &self.selected_artifact_quant {
            Some(s) => Some(s.as_str()),
            None => None,
        }
    }
}

/// Where recovery would write, as resolved on the filesystem: the
/// canonical model directory and the identity of the library root.
pub struct RecoveryPlacement {
    pub canonical_model_dir: String,
    pub root_identity: FilesystemIdentity,
}

/// The ticket a recovery request and its placement give.
pub open spec fn ticket_for(model_id: Seq<char>, q: RecoveryRequest, p: RecoveryPlacement) -> TicketView {
    TicketView {
        token: "v1:"@ + blake3_hex(
            encode_utf8("pumas-download-recovery\u{0}v1"@) + text_bytes(model_id) + text_bytes(p.canonical_model_dir@)
                + u64_be(p.root_identity.volume) + u64_be(p.root_identity.file) + text_bytes(q.repo_id@)
                + optional_text_bytes(q.selected_artifact_id.deep_view()) + optional_text_bytes(
                q.selected_artifact_quant.deep_view(),
            ) + u64_be(q.files@.len() as u64) + texts_bytes(q.files.deep_view()),
        ),
        repo_id: q.repo_id@,
        selected_artifact_id: q.selected_artifact_id.deep_view(),
        selected_artifact_files: q.files.deep_view(),
        selected_artifact_quant: q.selected_artifact_quant.deep_view(),
    }
}

fn into_ticket(model_id: &str, q: RecoveryRequest, p: RecoveryPlacement) -> (t: DownloadRecoveryTicket)
    ensures
        t@ == ticket_for(model_id@, q, p),
        spec_valid_token(t@.token),
{
    let ghost qq = q;
    let ghost pp = p;
    let snapshot = RecoverySnapshot {
        model_id: model_id.to_owned(),
        canonical_model_dir: p.canonical_model_dir,
        root_identity: p.root_identity,
        repo_id: q.repo_id,
        selected_artifact_id: q.selected_artifact_id,
        selected_artifact_files: q.files,
        selected_artifact_quant: q.selected_artifact_quant,
    };
    let token = snapshot.token();
    DownloadRecoveryTicket {
        token,
        repo_id: snapshot.repo_id,
        selected_artifact_id: snapshot.selected_artifact_id,
        selected_artifact_files: snapshot.selected_artifact_files,
        selected_artifact_quant: snapshot.selected_artifact_quant,
    }
}

/// What issuing answers once the request `q` was read from the metadata.
pub open spec fn issued(
    model_id: Seq<char>,
    q: Result<Option<RecoveryRequest>, PumasError>,
    placement: Option<RecoveryPlacement>,
    r: Result<Option<DownloadRecoveryTicket>, PumasError>,
) -> bool {
    match q {
        Err(_) => r matches Err(e) && invalid_metadata(e),
        Ok(None) => r matches Ok(None),
        Ok(Some(req)) => match placement {
            None => r matches Ok(None),
            Some(p) => r matches Ok(Some(t)) && t@ == ticket_for(model_id, req, p),
        },
    }
}

/// What issuing a ticket for `m` at `placement` gives.
pub open spec fn issue_outcome(
    model_id: Seq<char>,
    m: RecoveryMetadata,
    placement: Option<RecoveryPlacement>,
    r: Result<Option<DownloadRecoveryTicket>, PumasError>,
) -> bool {
    exists|q: Result<Option<RecoveryRequest>, PumasError>| request_outcome(m, q) && #[trigger] issued(model_id, q, placement, r)
}

/// Issue a recovery ticket for one model record. `placement` is where the
/// filesystem resolved the request's files (`None` when the record is not
/// eligible there). Ineligible records get no ticket; malformed recovery
/// metadata is an error.
pub fn issue_download_recovery_ticket(
    model_id: &str,
    metadata: &RecoveryMetadata,
    placement: Option<RecoveryPlacement>,
) -> (r: Result<Option<DownloadRecoveryTicket>, PumasError>)
    ensures
        issue_outcome(model_id@, *metadata, placement, r),
        r matches Ok(Some(t)) ==> spec_valid_token(t@.token),
{
    let q = recovery_request(metadata);
    let ghost gq = q;
    let ghost gp = placement;
    let r = match q {
        Err(e) => Err(e),
        Ok(None) => Ok(None),
        Ok(Some(request)) => match placement {
            None => Ok(None),
            Some(p) => Ok(Some(into_ticket(model_id, request, p))),
        },
    };
    assert(issued(model_id@, gq, gp, r));
    r
}

/// Outcome of checking a ticket token against the current record state.
pub enum DownloadRecoveryVerification {
    Complete,
    Unavailable,
    Stale,
    /// The token is current: recover these files of this repository.
    Verified { repo_id: String, files: Vec<String> },
}

/// What verifying answers once the request `q` was read from the metadata.
pub open spec fn verified(
    model_id: Seq<char>,
    q: Result<Option<RecoveryRequest>, PumasError>,
    placement: Option<RecoveryPlacement>,
    token: Seq<char>,
    r: Result<DownloadRecoveryVerification, PumasError>,
) -> bool {
    match q {
        Err(_) => r matches Err(e) && invalid_metadata(e),
        Ok(None) => r matches Ok(DownloadRecoveryVerification::Unavailable),
        Ok(Some(req)) => match placement {
            None => r matches Ok(DownloadRecoveryVerification::Unavailable),
            Some(p) => if ticket_for(model_id, req, p).token != token {
                r matches Ok(DownloadRecoveryVerification::Stale)
            } else {
                r matches Ok(DownloadRecoveryVerification::Verified { repo_id, files }) && repo_id@ == req.repo_id@
                    && files.deep_view() == req.files.deep_view()
            },
        },
    }
}

/// What checking `token` against `m` at `placement` gives.
pub open spec fn verify_outcome(
    model_id: Seq<char>,
    m: RecoveryMetadata,
    placement: Option<RecoveryPlacement>,
    token: Seq<char>,
    r: Result<DownloadRecoveryVerification, PumasError>,
) -> bool {
    if !m.is_object || !(m.download_incomplete@ is Bool) {
        r matches Err(e) && invalid_metadata(e)
    } else if m.download_incomplete@ == MetadataValueView::Bool(false) {
        r matches Ok(DownloadRecoveryVerification::Complete)
    } else {
        exists|q: Result<Option<RecoveryRequest>, PumasError>| request_outcome(m, q) && #[trigger] verified(model_id, q, placement, token, r)
    }
}

/// Check a ticket token against the record's current recovery state.
pub fn verify_download_recovery_ticket(
    model_id: &str,
    metadata: &RecoveryMetadata,
    placement: Option<RecoveryPlacement>,
    token: &DownloadRecoveryToken,
) -> (r: Result<DownloadRecoveryVerification, PumasError>)
    ensures
        verify_outcome(model_id@, *metadata, placement, token@, r),
{
    if !metadata.is_object {
        return Err(invalid_recovery_metadata());
    }
    match &metadata.download_incomplete {
        MetadataValue::Bool(false) => {
            return Ok(DownloadRecoveryVerification::Complete);
        },
        MetadataValue::Bool(true) => {},
        _ => {
            return Err(invalid_recovery_metadata());
        },
    }
    let q = recovery_request(metadata);
    let ghost gq = q;
    let ghost gp = placement;
    let r = match q {
        Err(e) => Err(e),
        Ok(None) => Ok(DownloadRecoveryVerification::Unavailable),
        Ok(Some(request)) => match placement {
            None => Ok(DownloadRecoveryVerification::Unavailable),
            Some(p) => {
                let ghost req = request;
                let ghost pl = p;
                let repo_id = request.repo_id.clone();
                let files = crate::strings::clone_strings(&request.files);
                let ticket = into_ticket(model_id, request, p);
                let current = ticket.token().to_owned();
                let given = token.as_str().to_owned();
                if current != given {
                    Ok(DownloadRecoveryVerification::Stale)
                } else {
                    Ok(DownloadRecoveryVerification::Verified { repo_id, files })
                }
            },
        },
    };
    assert(verified(model_id@, gq, gp, token@, r));
    r
}

/// Digit `d` as a character.
pub open spec fn digit_char(d: nat) -> char {
    if d == 0 { '0' } else if d == 1 { '1' } else if d == 2 { '2' } else if d == 3 { '3' } else if d == 4 {
        '4'
    } else if d == 5 { '5' } else if d == 6 { '6' } else if d == 7 { '7' } else if d == 8 { '8' } else { '9' }
}

/// The decimal rendering of `n`.
pub open spec fn decimal(n: nat) -> Seq<char>
    decreases n,
{
    if n < 10 {
        seq![digit_char(n)]
    } else {
        decimal(n / 10).push(digit_char(n % 10))
    }
}

fn digit_text(d: u64) -> (r: &'static str)
    requires
        d < 10,
    ensures
        r@ == seq![digit_char(d as nat)],
{
    proof {
        reveal_strlit("0");
        reveal_strlit("1");
        reveal_strlit("2");
        reveal_strlit("3");
        reveal_strlit("4");
        reveal_strlit("5");
        reveal_strlit("6");
        reveal_strlit("7");
        reveal_strlit("8");
        reveal_strlit("9");
    }
    let r = if d == 0 { "0" } else if d == 1 { "1" } else if d == 2 { "2" } else if d == 3 { "3" } else if d == 4 {
        "4"
    } else if d == 5 { "5" } else if d == 6 { "6" } else if d == 7 { "7" } else if d == 8 { "8" } else { "9" };
    assert(r@ =~= seq![digit_char(d as nat)]);
    r
}

/// `n` in decimal.
pub fn decimal_text(n: u64) -> (r: String)
    ensures
        r@ == decimal(n as nat),
    decreases n,
{
    if n < 10 {
        digit_text(n).to_owned()
    } else {
        let mut r = decimal_text(n / 10);
        r.append(digit_text(n % 10));
        r
    }
}

/// Equality identity of one destination below a library root; the
/// authority to act on it is held separately.
pub struct DestinationIdentity {
    pub root: FilesystemIdentity,
    pub relative: String,
}

impl DestinationIdentity {
    /// The identity as persisted: the root as `unix:{volume}:{file}` and the
    /// relative target.
    pub fn persisted(&self) -> (r: PersistedDestinationIdentity)
        ensures
            r.library_root@ == "unix:"@ + decimal(self.root.volume as nat) + ":"@ + decimal(self.root.file as nat),
            r.relative_target@ == self.relative@,
    {
        proof {
            reveal_strlit("unix:");
            reveal_strlit(":");
        }
        let mut root = "unix:".to_owned();
        root.append(decimal_text(self.root.volume).as_str());
        root.append(":");
        root.append(decimal_text(self.root.file).as_str());
        PersistedDestinationIdentity { library_root: root, relative_target: self.relative.clone() }
    }
}

} // verus!
