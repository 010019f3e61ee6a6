//! Reading the download-recovery metadata of a model record.

use crate::error::{is_other, other_error, PumasError};
use crate::order::{lemma_seq_lt_total, lemma_seq_lt_transitive, seq_lt, str_lt};
use crate::recovery_ids::{
    is_portable_relative_path, is_valid_repo_id, spec_portable_relative_path, spec_valid_repo_id,
};
use crate::text::{byte_len, byte_len_at_most, chars_of, is_trim_space, is_trim_space_exec};
use vstd::prelude::*;

verus! {

/// Longest accepted identifier, in UTF-8 bytes.
pub const MAX_IDENTIFIER_BYTES: usize = 4096;

/// Most entries accepted in a file list.
pub const MAX_COLLECTION_ITEMS: usize = 512;

/// The JSON shape of one metadata member. A list holds its string items;
/// `None` stands for an item that is not a string.
pub enum MetadataValue {
    Missing,
    Null,
    Bool(bool),
    Text(String),
    List(Vec<Option<String>>),
    Other,
}

pub enum MetadataValueView {
    Missing,
    Null,
    Bool(bool),
    Text(Seq<char>),
    List(Seq<Option<Seq<char>>>),
    Other,
}

impl View for MetadataValue {
    type V = MetadataValueView;

    open spec fn view(&self) -> MetadataValueView {
        match self {
            MetadataValue::Missing => MetadataValueView::Missing,
            MetadataValue::Null => MetadataValueView::Null,
            MetadataValue::Bool(b) => MetadataValueView::Bool(*b),
            MetadataValue::Text(s) => MetadataValueView::Text(s@),
            MetadataValue::List(v) => MetadataValueView::List(v.deep_view()),
            MetadataValue::Other => MetadataValueView::Other,
        }
    }
}

/// The members of a model record's metadata that recovery reads.
pub struct RecoveryMetadata {
    /// The metadata is a JSON object.
    pub is_object: bool,
    pub download_incomplete: MetadataValue,
    pub repo_id: MetadataValue,
    pub selected_artifact_id: MetadataValue,
    pub selected_artifact_quant: MetadataValue,
    pub selected_artifact_files: MetadataValue,
    pub expected_files: MetadataValue,
}

/// What recovery would download, as read from metadata.
pub struct RecoveryRequest {
    pub repo_id: String,
    pub selected_artifact_id: Option<String>,
    pub selected_artifact_quant: Option<String>,
    pub files: Vec<String>,
}

/// `s` without leading whitespace.
pub open spec fn trim_start(s: Seq<char>) -> Seq<char>
    decreases s.len(),
{
    if s.len() > 0 && is_trim_space(s[0]) {
        trim_start(s.drop_first())
    } else {
        s
    }
}

/// `s` without trailing whitespace.
pub open spec fn trim_end(s: Seq<char>) -> Seq<char>
    decreases s.len(),
{
    if s.len() > 0 && is_trim_space(s.last()) {
        trim_end(s.drop_last())
    } else {
        s
    }
}

pub open spec fn trim(s: Seq<char>) -> Seq<char> {
    trim_end(trim_start(s))
}

/// `s` with surrounding whitespace removed.
pub fn trim_text(s: &str) -> (r: String)
    ensures
        r@ == trim(s@),
{
    let c = chars_of(s);
    let n = c.len();
    let mut i: usize = 0;
    assert(s@.skip(0) =~= s@);
    while i < n && is_trim_space_exec(c[i])
        invariant
            c@ == s@,
            n == s@.len(),
            i <= n,
            trim_start(s@) == trim_start(s@.skip(i as int)),
        decreases n - i,
    {
        assert(s@.skip(i as int).drop_first() =~= s@.skip(i + 1));
        i = i + 1;
    }
    let ghost start = s@.skip(i as int);
    assert(trim_start(start) == start);
    let mut j: usize = n;
    assert(start.take(start.len() as int) =~= start);
    while j > i && is_trim_space_exec(c[j - 1])
        invariant
            c@ == s@,
            n == s@.len(),
            i <= j <= n,
            start == s@.skip(i as int),
            trim_end(start) == trim_end(s@.subrange(i as int, j as int)),
        decreases j - i,
    {
        assert(s@.subrange(i as int, j as int).drop_last() =~= s@.subrange(i as int, j - 1));
        j = j - 1;
    }
    assert(trim_end(s@.subrange(i as int, j as int)) == s@.subrange(i as int, j as int));
    s.substring_char(i, j).to_owned()
}

pub fn invalid_recovery_metadata() -> (e: PumasError)
    ensures
        is_other(e, "Model download recovery metadata is invalid"@),
{
    other_error("Model download recovery metadata is invalid")
}

pub open spec fn invalid_metadata(e: PumasError) -> bool {
    is_other(e, "Model download recovery metadata is invalid"@)
}

/// An optional identifier: `Some(None)` when absent or null, `Some(Some(t))`
/// for a string whose trimmed text `t` is non-empty and short enough, and
/// `None` when the member is malformed.
pub open spec fn text_field(v: MetadataValueView) -> Option<Option<Seq<char>>> {
    match v {
        MetadataValueView::Missing => Some(None),
        MetadataValueView::Null => Some(None),
        MetadataValueView::Text(s) => if trim(s).len() == 0 || byte_len(trim(s)) > MAX_IDENTIFIER_BYTES {
            None
        } else {
            Some(Some(trim(s)))
        },
        _ => None,
    }
}

pub fn optional_text(value: &MetadataValue) -> (r: Result<Option<String>, PumasError>)
    ensures
        match text_field(value@) {
            None => r matches Err(e) && invalid_metadata(e),
            Some(t) => r matches Ok(x) && x.deep_view() == t,
        },
{
    match value {
        MetadataValue::Missing => Ok(None),
        MetadataValue::Null => Ok(None),
        MetadataValue::Text(s) => {
            let t = trim_text(s.as_str());
            let c = chars_of(t.as_str());
            assert(c@.subrange(0, c@.len() as int) =~= c@);
            if c.len() == 0 || !byte_len_at_most(c.as_slice(), 0, c.len(), MAX_IDENTIFIER_BYTES) {
                Err(invalid_recovery_metadata())
            } else {
                Ok(Some(t))
            }
        },
        _ => Err(invalid_recovery_metadata()),
    }
}

/// The list is strictly increasing, so sorted without duplicates.
pub open spec fn strictly_sorted(s: Seq<Seq<char>>) -> bool {
    forall|i: int, j: int| 0 <= i < j < s.len() ==> seq_lt(#[trigger] s[i], #[trigger] s[j])
}

/// A file list is well formed: absent, null, or a short enough list of
/// portable relative paths.
pub open spec fn file_list_ok(v: MetadataValueView) -> bool {
    match v {
        MetadataValueView::Missing => true,
        MetadataValueView::Null => true,
        MetadataValueView::List(items) => items.len() <= MAX_COLLECTION_ITEMS && forall|i: int|
            0 <= i < items.len() ==> (#[trigger] items[i] matches Some(x) && spec_portable_relative_path(x)),
        _ => false,
    }
}

/// The paths a well-formed file list names.
pub open spec fn file_list_members(v: MetadataValueView) -> Set<Seq<char>> {
    match v {
        MetadataValueView::List(items) => Set::new(
            |x: Seq<char>| exists|i: int| 0 <= i < items.len() && #[trigger] items[i] == Some(x),
        ),
        _ => Set::empty(),
    }
}

/// `r` lists the members of `v` in sorted order, each once.
pub open spec fn lists_members(r: Seq<Seq<char>>, v: MetadataValueView) -> bool {
    &&& strictly_sorted(r)
    &&& forall|x: Seq<char>| #[trigger] r.contains(x) <==> file_list_members(v).contains(x)
}

/// Insert `x` into a strictly sorted list of distinct strings.
fn insert_sorted(out: &mut Vec<String>, x: &str)
    requires
        strictly_sorted(old(out).deep_view()),
    ensures
        strictly_sorted(final(out).deep_view()),
        forall|y: Seq<char>| #[trigger] final(out).deep_view().contains(y) <==> old(out).deep_view().contains(y) || y
            == x@,
{
    let ghost s0 = out.deep_view();
    let mut p: usize = 0;
    while p < out.len() && str_lt(out[p].as_str(), x)
        invariant
            out.deep_view() == s0,
            p <= s0.len(),
            forall|k: int| 0 <= k < p ==> seq_lt(#[trigger] s0[k], x@),
        decreases out.len() - p,
    {
        p = p + 1;
    }
    proof {
        if p < s0.len() {
            lemma_seq_lt_total(s0[p as int], x@);
            if s0[p as int] != x@ {
                assert(seq_lt(x@, s0[p as int]));
            }
        }
    }
    if p < out.len() {
        assert(out@[p as int]@ == s0[p as int]);
        if out[p] == x.to_owned() {
            assert(s0[p as int] == x@);
            return;
        }
    }
    out.insert(p, x.to_owned());
    proof {
        let s1 = out.deep_view();
        assert(s1 =~= s0.insert(p as int, x@));
        if p < s0.len() {
            assert(s0[p as int] != x@);
            lemma_seq_lt_total(s0[p as int], x@);
        }
        assert forall|i: int, j: int| 0 <= i < j < s1.len() implies seq_lt(#[trigger] s1[i], #[trigger] s1[j]) by {
            if j < p {
                assert(s1[i] == s0[i] && s1[j] == s0[j]);
            } else if j == p {
                assert(s1[j] == x@);
                assert(s1[i] == s0[i]);
            } else if i == p {
                assert(s1[i] == x@);
                assert(s1[j] == s0[j - 1]);
                if j - 1 > p {
                    assert(seq_lt(s0[p as int], s0[j - 1]));
                    lemma_seq_lt_transitive(x@, s0[p as int], s0[j - 1]);
                }
            } else if i < p {
                assert(s1[i] == s0[i] && s1[j] == s0[j - 1]);
                if i < j - 1 {
                } else {
                    assert(i == j - 1);
                    assert(false);
                }
            } else {
                assert(s1[i] == s0[i - 1] && s1[j] == s0[j - 1]);
            }
        }
        assert forall|y: Seq<char>| #[trigger] s1.contains(y) <==> s0.contains(y) || y == x@ by {
            if s1.contains(y) {
                let k = choose|k: int| 0 <= k < s1.len() && s1[k] == y;
                if k < p {
                    assert(s0[k] == y);
                } else if k > p {
                    assert(s0[k - 1] == y);
                }
            }
            if s0.contains(y) {
                let k = choose|k: int| 0 <= k < s0.len() && s0[k] == y;
                if k < p {
                    assert(s1[k] == y);
                } else {
                    assert(s1[k + 1] == y);
                }
            }
            if y == x@ {
                assert(s1[p as int] == y);
            }
        }
    }
}

/// The sorted distinct paths of a file list; empty when absent or null.
pub fn optional_file_set(value: &MetadataValue) -> (r: Result<Vec<String>, PumasError>)
    ensures
        r is Ok <==> file_list_ok(value@),
        r matches Ok(files) ==> lists_members(files.deep_view(), value@),
        r matches Err(e) ==> invalid_metadata(e),
{
    let items = match value {
        MetadataValue::Missing => {
            return Ok(Vec::new());
        },
        MetadataValue::Null => {
            return Ok(Vec::new());
        },
        MetadataValue::List(items) => {
            if items.len() > MAX_COLLECTION_ITEMS {
                return Err(invalid_recovery_metadata());
            }
            items
        },
        _ => {
            return Err(invalid_recovery_metadata());
        },
    };
    let ghost iv = items.deep_view();
    let mut out: Vec<String> = Vec::new();
    let mut i: usize = 0;
    while i < items.len()
        invariant
            iv == items.deep_view(),
            value@ == MetadataValueView::List(iv),
            i <= iv.len(),
            forall|k: int| 0 <= k < i ==> (#[trigger] iv[k] matches Some(x) && spec_portable_relative_path(x)),
            strictly_sorted(out.deep_view()),
            forall|y: Seq<char>| #[trigger]
                out.deep_view().contains(y) <==> exists|k: int| 0 <= k < i && #[trigger] iv[k] == Some(y),
        decreases items.len() - i,
    {
        match &items[i] {
            None => {
                assert(!(iv[i as int] matches Some(x) && spec_portable_relative_path(x)));
                return Err(invalid_recovery_metadata());
            },
            Some(s) => {
                if !is_portable_relative_path(s.as_str()) {
                    assert(iv[i as int] == Some(s@));
                    return Err(invalid_recovery_metadata());
                }
                let ghost before = out.deep_view();
                insert_sorted(&mut out, s.as_str());
                proof {
                    assert(iv[i as int] == Some(s@));
                    assert forall|y: Seq<char>| #[trigger]
                        out.deep_view().contains(y) <==> exists|k: int| 0 <= k < i + 1 && #[trigger] iv[k] == Some(y) by {
                        if out.deep_view().contains(y) && y != s@ {
                            let k = choose|k: int| 0 <= k < i && #[trigger] iv[k] == Some(y);
                            assert(0 <= k < i + 1);
                        }
                        if exists|k: int| 0 <= k < i + 1 && #[trigger] iv[k] == Some(y) {
                            let k = choose|k: int| 0 <= k < i + 1 && #[trigger] iv[k] == Some(y);
                            if k < i {
                                assert(before.contains(y));
                            }
                        }
                    }
                }
            },
        }
        i = i + 1;
    }
    Ok(out)
}

/// Refuse a malformed Hugging Face repository id.
pub fn validate_repo_id(value: &str) -> (r: Result<(), PumasError>)
    ensures
        r is Ok <==> spec_valid_repo_id(value@),
        r matches Err(e) ==> invalid_metadata(e),
{
    if is_valid_repo_id(value) {
        Ok(())
    } else {
        Err(invalid_recovery_metadata())
    }
}

} // verus!
