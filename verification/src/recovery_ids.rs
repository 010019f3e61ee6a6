//! Exact grammars of the identifiers accepted by the download recovery action:
//! recovery tokens, portable model ids and Hugging Face repository ids.

use crate::text::{
    ascii_lower, ascii_upper, byte_len, byte_len_at_most, lemma_byte_len_at_least_len, chars_of,
    is_ascii_alphanumeric, is_ascii_alphanumeric_exec, is_ascii_digit, is_control, is_control_exec,
    ascii_upper_exec,
};
use vstd::prelude::*;

verus! {

pub const MAX_IDENTIFIER_BYTES: usize = 4096;

pub const MAX_PORTABLE_PATH_COMPONENT_BYTES: usize = 255;

pub const MAX_HF_REPO_ID_BYTES: usize = 96;

pub const TOKEN_HEX_CHARS: usize = 64;

pub open spec fn is_lower_hex(c: char) -> bool {
    is_ascii_digit(c) || (97 <= c as u32 <= 102)
}

/// `v1:` followed by exactly 64 lower-case hexadecimal digits.
pub open spec fn spec_valid_token(s: Seq<char>) -> bool {
    &&& s.len() == 3 + TOKEN_HEX_CHARS
    &&& s[0] == 'v' && s[1] == '1' && s[2] == ':'
    &&& forall|i: int| 3 <= i < s.len() ==> #[trigger] is_lower_hex(s[i])
}

/// Characters that no portable path may contain.
pub open spec fn is_forbidden_path_char(c: char) -> bool {
    is_control(c) || c == '\\' || c == ':' || c == '*' || c == '?' || c == '"' || c == '<' || c
        == '>' || c == '|'
}

/// `s[a..b]` is one of the pieces of `s.split('/')`.
pub open spec fn is_segment(s: Seq<char>, a: int, b: int) -> bool {
    &&& 0 <= a <= b <= s.len()
    &&& (a == 0 || s[a - 1] == '/')
    &&& (b == s.len() || s[b] == '/')
    &&& forall|k: int| a <= k < b ==> s[k] != '/'
}

/// `k` is the index of the first `.` in `c`, or `c.len()` when there is none.
pub open spec fn is_stem_end(c: Seq<char>, k: int) -> bool {
    &&& 0 <= k <= c.len()
    &&& forall|j: int| 0 <= j < k ==> c[j] != '.'
    &&& (k == c.len() || c[k] == '.')
}

pub open spec fn upper(s: Seq<char>) -> Seq<char> {
    s.map_values(|c: char| ascii_upper(c))
}

/// `value` is `prefix` followed by one digit from 1 to 9.
pub open spec fn spec_numbered_windows_device(value: Seq<char>, prefix: Seq<char>) -> bool {
    &&& value.len() == prefix.len() + 1
    &&& value.take(prefix.len() as int) == prefix
    &&& 49 <= value.last() as u32 <= 57
}

/// Stems that name Windows devices.
pub open spec fn is_reserved_device(upper_stem: Seq<char>) -> bool {
    ||| upper_stem == seq!['C', 'O', 'N']
    ||| upper_stem == seq!['P', 'R', 'N']
    ||| upper_stem == seq!['A', 'U', 'X']
    ||| upper_stem == seq!['N', 'U', 'L']
    ||| upper_stem == seq!['C', 'O', 'N', 'I', 'N', '$']
    ||| upper_stem == seq!['C', 'O', 'N', 'O', 'U', 'T', '$']
    ||| spec_numbered_windows_device(upper_stem, seq!['C', 'O', 'M'])
    ||| spec_numbered_windows_device(upper_stem, seq!['L', 'P', 'T'])
}

/// One path component that is valid on every supported platform.
pub open spec fn spec_portable_component(c: Seq<char>) -> bool {
    &&& c.len() > 0
    &&& byte_len(c) <= MAX_PORTABLE_PATH_COMPONENT_BYTES
    &&& c != seq!['.']
    &&& c != seq!['.', '.']
    &&& c.last() != '.'
    &&& c.last() != ' '
    &&& forall|k: int| is_stem_end(c, k) ==> !is_reserved_device(upper(c.take(k)))
}

/// A non-empty `/`-separated relative path of portable components.
pub open spec fn spec_portable_relative_path(s: Seq<char>) -> bool {
    &&& s.len() > 0
    &&& byte_len(s) <= MAX_IDENTIFIER_BYTES
    &&& forall|i: int| 0 <= i < s.len() ==> !is_forbidden_path_char(#[trigger] s[i])
    &&& forall|a: int, b: int| #[trigger]
        is_segment(s, a, b) ==> spec_portable_component(s.subrange(a, b))
}

pub open spec fn is_repo_id_char(c: char) -> bool {
    is_ascii_alphanumeric(c) || c == '-' || c == '_' || c == '.'
}

pub open spec fn is_repo_id_edge(c: char) -> bool {
    is_ascii_alphanumeric(c) || c == '_'
}

pub open spec fn spec_valid_repo_segment(seg: Seq<char>) -> bool {
    &&& seg.len() > 0
    &&& forall|i: int| 0 <= i < seg.len() ==> #[trigger] is_repo_id_char(seg[i])
    &&& is_repo_id_edge(seg[0])
    &&& is_repo_id_edge(seg.last())
}

pub open spec fn contains_pair(s: Seq<char>, c: char) -> bool {
    exists|i: int| 0 <= i < s.len() - 1 && #[trigger] s[i] == c && s[i + 1] == c
}

pub open spec fn lower(s: Seq<char>) -> Seq<char> {
    s.map_values(|c: char| ascii_lower(c))
}

pub open spec fn ends_with_dot_git(s: Seq<char>) -> bool {
    s.len() >= 4 && lower(s).subrange(s.len() - 4, s.len() as int) == seq!['.', 'g', 'i', 't']
}

/// A Hugging Face `owner/name` repository id.
///
/// Both segments consist of ASCII characters only, so the length bound in
/// characters is also the bound in UTF-8 bytes.
pub open spec fn spec_valid_repo_id(s: Seq<char>) -> bool {
    exists|k: int|
        0 <= k < s.len() && #[trigger] s[k] == '/' && {
            &&& spec_valid_repo_segment(s.take(k))
            &&& spec_valid_repo_segment(s.skip(k + 1))
            &&& s.len() <= MAX_HF_REPO_ID_BYTES
            &&& !contains_pair(s, '-')
            &&& !contains_pair(s, '.')
            &&& !ends_with_dot_git(s)
        }
}

/// Of an `owner/name` id whose segments are well formed, within the length
/// bound and not ending in `.git`, only doubled separators are refused: it
/// is valid exactly when no two adjacent characters are both `-` or both
/// `.`, so single `-` and `.` are allowed.
pub proof fn law_repo_id_refuses_only_doubled_separators(s: Seq<char>, k: int)
    requires
        0 <= k < s.len(),
        s[k] == '/',
        spec_valid_repo_segment(s.take(k)),
        spec_valid_repo_segment(s.skip(k + 1)),
        s.len() <= MAX_HF_REPO_ID_BYTES,
        !ends_with_dot_git(s),
    ensures
        spec_valid_repo_id(s) <==> forall|i: int|
            0 <= i < s.len() - 1 ==> !(#[trigger] s[i] == '-' && s[i + 1] == '-') && !(s[i] == '.' && s[i + 1]
                == '.'),
{
    if forall|i: int|
        0 <= i < s.len() - 1 ==> !(#[trigger] s[i] == '-' && s[i + 1] == '-') && !(s[i] == '.' && s[i + 1] == '.') {
        assert(!contains_pair(s, '-'));
        assert(!contains_pair(s, '.'));
        assert(s[k] == '/');
    }
}

/// Opaque collision-resistant fingerprint of one recovery-relevant model state.
///
/// This is a stale-state precondition, not an authentication credential.
pub struct DownloadRecoveryToken(String);

impl View for DownloadRecoveryToken {
    type V = Seq<char>;

    closed spec fn view(&self) -> Seq<char> {
        self.0@
    }
}

impl DownloadRecoveryToken {
    pub fn parse(value: &str) -> (r: Option<Self>)
        ensures
            r is Some <==> spec_valid_token(value@),
            r matches Some(t) ==> t@ == value@,
    {
        let chars = chars_of(value);
        if chars.len() != 3 + TOKEN_HEX_CHARS {
            return None;
        }
        if chars[0] != 'v' || chars[1] != '1' || chars[2] != ':' {
            return None;
        }
        let mut i: usize = 3;
        while i < chars.len()
            invariant
                chars@ == value@,
                chars@.len() == 3 + TOKEN_HEX_CHARS,
                3 <= i <= chars@.len(),
                forall|j: int| 3 <= j < i ==> #[trigger] is_lower_hex(chars@[j]),
            decreases chars.len() - i,
        {
            let v = chars[i] as u32;
            if !((48 <= v && v <= 57) || (97 <= v && v <= 102)) {
                assert(!is_lower_hex(value@[i as int]));
                return None;
            }
            i = i + 1;
        }
        Some(DownloadRecoveryToken(value.to_owned()))
    }

    /// Build a token from a string already known to follow the token grammar.
    pub(crate) fn from_valid(value: String) -> (r: Self)
        requires
            spec_valid_token(value@),
        ensures
            r@ == value@,
    {
        DownloadRecoveryToken(value)
    }

    pub fn as_str(&self) -> (r: &str)
        ensures
            r@ == self@,
    {
        self.0.as_str()
    }
}

/// Validated platform-neutral model id accepted by the recovery action.
pub struct DownloadRecoveryModelId(String);

impl View for DownloadRecoveryModelId {
    type V = Seq<char>;

    closed spec fn view(&self) -> Seq<char> {
        self.0@
    }
}

impl DownloadRecoveryModelId {
    pub fn parse(value: &str) -> (r: Option<Self>)
        ensures
            r is Some <==> spec_portable_relative_path(value@),
            r matches Some(id) ==> id@ == value@,
    {
        if is_portable_relative_path(value) {
            Some(DownloadRecoveryModelId(value.to_owned()))
        } else {
            None
        }
    }

    pub fn as_str(&self) -> (r: &str)
        ensures
            r@ == self@,
    {
        self.0.as_str()
    }
}

/// True when `a` and `b` hold the same characters.
pub fn chars_equal(a: &[char], b: &[char]) -> (r: bool)
    ensures
        r == (a@ == b@),
{
    if a.len() != b.len() {
        return false;
    }
    let mut i: usize = 0;
    while i < a.len()
        invariant
            a@.len() == b@.len(),
            i <= a@.len(),
            forall|j: int| 0 <= j < i ==> a@[j] == b@[j],
        decreases a.len() - i,
    {
        if a[i] != b[i] {
            return false;
        }
        i = i + 1;
    }
    assert(a@ =~= b@);
    true
}

/// True when `value` is `prefix` followed by exactly one digit from 1 to 9.
pub fn numbered_windows_device(value: &[char], prefix: &[char]) -> (r: bool)
    ensures
        r == spec_numbered_windows_device(value@, prefix@),
{
    if value.len() == 0 || value.len() - 1 != prefix.len() {
        return false;
    }
    let mut i: usize = 0;
    while i < prefix.len()
        invariant
            value@.len() == prefix@.len() + 1,
            i <= prefix@.len(),
            forall|j: int| 0 <= j < i ==> value@[j] == prefix@[j],
        decreases prefix.len() - i,
    {
        if value[i] != prefix[i] {
            assert(value@.take(prefix@.len() as int)[i as int] != prefix@[i as int]);
            return false;
        }
        i = i + 1;
    }
    assert(value@.take(prefix@.len() as int) =~= prefix@);
    let d = value[prefix.len()] as u32;
    49 <= d && d <= 57
}

fn is_reserved_device_exec(stem: &[char]) -> (r: bool)
    ensures
        r == is_reserved_device(stem@),
{
    let con: [char; 3] = ['C', 'O', 'N'];
    let prn: [char; 3] = ['P', 'R', 'N'];
    let aux: [char; 3] = ['A', 'U', 'X'];
    let nul: [char; 3] = ['N', 'U', 'L'];
    let conin: [char; 6] = ['C', 'O', 'N', 'I', 'N', '$'];
    let conout: [char; 7] = ['C', 'O', 'N', 'O', 'U', 'T', '$'];
    let com: [char; 3] = ['C', 'O', 'M'];
    let lpt: [char; 3] = ['L', 'P', 'T'];
    assert(con@ =~= seq!['C', 'O', 'N']);
    assert(prn@ =~= seq!['P', 'R', 'N']);
    assert(aux@ =~= seq!['A', 'U', 'X']);
    assert(nul@ =~= seq!['N', 'U', 'L']);
    assert(conin@ =~= seq!['C', 'O', 'N', 'I', 'N', '$']);
    assert(conout@ =~= seq!['C', 'O', 'N', 'O', 'U', 'T', '$']);
    assert(com@ =~= seq!['C', 'O', 'M']);
    assert(lpt@ =~= seq!['L', 'P', 'T']);
    chars_equal(stem, con.as_slice()) || chars_equal(stem, prn.as_slice()) || chars_equal(
        stem,
        aux.as_slice(),
    ) || chars_equal(stem, nul.as_slice()) || chars_equal(stem, conin.as_slice())
        || chars_equal(stem, conout.as_slice()) || numbered_windows_device(stem, com.as_slice())
        || numbered_windows_device(stem, lpt.as_slice())
}

/// True when `s[start..end]` is a portable path component.
pub fn is_portable_path_component(s: &[char], start: usize, end: usize) -> (r: bool)
    requires
        start <= end <= s@.len(),
    ensures
        r == spec_portable_component(s@.subrange(start as int, end as int)),
{
    let ghost c = s@.subrange(start as int, end as int);
    if start == end {
        return false;
    }
    if !byte_len_at_most(s, start, end, MAX_PORTABLE_PATH_COMPONENT_BYTES) {
        return false;
    }
    let len = end - start;
    if len == 1 && s[start] == '.' {
        assert(c =~= seq!['.']);
        return false;
    }
    if len == 2 && s[start] == '.' && s[start + 1] == '.' {
        assert(c =~= seq!['.', '.']);
        return false;
    }
    assert(len == 1 ==> c != seq!['.', '.']) by {
        if len == 1 {
            assert(c.len() != seq!['.', '.'].len());
        }
    };
    assert(len == 2 ==> c != seq!['.']) by {
        if len == 2 {
            assert(c.len() != seq!['.'].len());
        }
    };
    assert(len == 1 ==> c != seq!['.']) by {
        if len == 1 && c == seq!['.'] {
            assert(c[0] == '.');
        }
    };
    assert(len == 2 ==> c != seq!['.', '.']) by {
        if len == 2 && c == seq!['.', '.'] {
            assert(c[0] == '.' && c[1] == '.');
        }
    };
    assert(len > 2 ==> c != seq!['.'] && c != seq!['.', '.']) by {
        if len > 2 {
            assert(c.len() != seq!['.'].len());
            assert(c.len() != seq!['.', '.'].len());
        }
    };
    let last = s[end - 1];
    if last == '.' || last == ' ' {
        return false;
    }
    // Upper-cased stem: the characters before the first '.'.
    let mut stem: Vec<char> = Vec::new();
    let mut k: usize = start;
    while k < end && s[k] != '.'
        invariant
            start <= k <= end <= s@.len(),
            c == s@.subrange(start as int, end as int),
            forall|j: int| start <= j < k ==> s@[j] != '.',
            stem@ == upper(c.take(k - start)),
        decreases end - k,
    {
        let u = ascii_upper_exec(s[k]);
        stem.push(u);
        proof {
            assert(stem@ =~= upper(c.take(k + 1 - start)));
        }
        k = k + 1;
    }
    let ghost kk = (k - start) as int;
    assert(is_stem_end(c, kk));
    proof {
        assert forall|k2: int| is_stem_end(c, k2) implies k2 == kk by {
            if k2 < kk {
                assert(c[k2] == s@[start + k2]);
            }
            if k2 > kk {
                assert(c[kk] == '.');
            }
        }
    }
    let reserved = is_reserved_device_exec(stem.as_slice());
    !reserved
}

/// True when `s[a..b]` has no `/` and is delimited by `/` or the ends of `s`.
proof fn lemma_segment_start_unique(s: Seq<char>, a: int, a2: int, b: int)
    requires
        is_segment(s, a, b),
        is_segment(s, a2, b),
    ensures
        a == a2,
{
    if a < a2 {
        assert(s[a2 - 1] == '/');
    } else if a2 < a {
        assert(s[a - 1] == '/');
    }
}

/// True when `value` is a non-empty relative path whose `/`-separated
/// components are all portable.
pub fn is_portable_relative_path(value: &str) -> (r: bool)
    ensures
        r == spec_portable_relative_path(value@),
{
    let s = chars_of(value);
    let n = s.len();
    if n == 0 {
        return false;
    }
    if !byte_len_at_most(s.as_slice(), 0, n, MAX_IDENTIFIER_BYTES) {
        assert(s@.subrange(0, n as int) =~= s@);
        return false;
    }
    assert(s@.subrange(0, n as int) =~= s@);
    proof {
        lemma_byte_len_at_least_len(s@);
    }
    let mut i: usize = 0;
    while i < n
        invariant
            s@ == value@,
            n == s@.len(),
            i <= n,
            n <= MAX_IDENTIFIER_BYTES,
            forall|j: int| 0 <= j < i ==> !is_forbidden_path_char(#[trigger] s@[j]),
        decreases n - i,
    {
        let c = s[i];
        if is_control_exec(c) || c == '\\' || c == ':' || c == '*' || c == '?' || c == '"' || c
            == '<' || c == '>' || c == '|' {
            return false;
        }
        i = i + 1;
    }
    let mut start: usize = 0;
    let mut i: usize = 0;
    while i <= n
        invariant
            s@ == value@,
            n == s@.len(),
            start <= i <= n + 1,
            n <= MAX_IDENTIFIER_BYTES,
            i <= n ==> start <= i,
            i <= n ==> (start == 0 || s@[start - 1] == '/'),
            i <= n ==> forall|k: int| start <= k < i ==> s@[k] != '/',
            forall|a: int, b: int|
                #![trigger is_segment(s@, a, b)]
                is_segment(s@, a, b) && b < i ==> spec_portable_component(s@.subrange(a, b)),
        decreases n + 1 - i,
    {
        if i == n || s[i] == '/' {
            let ok = is_portable_path_component(s.as_slice(), start, i);
            assert(is_segment(s@, start as int, i as int));
            if !ok {
                return false;
            }
            proof {
                assert forall|a: int, b: int|
                    #![trigger is_segment(s@, a, b)]
                    is_segment(s@, a, b) && b < i + 1 implies spec_portable_component(
                    s@.subrange(a, b),
                ) by {
                    if b == i {
                        lemma_segment_start_unique(s@, a, start as int, b);
                    }
                }
            }
            start = i + 1;
        }
        i = i + 1;
    }
    true
}

fn is_repo_segment(s: &[char], start: usize, end: usize) -> (r: bool)
    requires
        start <= end <= s@.len(),
    ensures
        r == spec_valid_repo_segment(s@.subrange(start as int, end as int)),
{
    let ghost seg = s@.subrange(start as int, end as int);
    if start == end {
        return false;
    }
    let mut i: usize = start;
    while i < end
        invariant
            start <= i <= end <= s@.len(),
            seg == s@.subrange(start as int, end as int),
            forall|j: int| 0 <= j < i - start ==> #[trigger] is_repo_id_char(seg[j]),
        decreases end - i,
    {
        let c = s[i];
        if !(is_ascii_alphanumeric_exec(c) || c == '-' || c == '_' || c == '.') {
            assert(!is_repo_id_char(seg[i - start]));
            return false;
        }
        i = i + 1;
    }
    let first = s[start];
    let last = s[end - 1];
    (is_ascii_alphanumeric_exec(first) || first == '_') && (is_ascii_alphanumeric_exec(last)
        || last == '_')
}

fn has_pair(s: &[char], c: char) -> (r: bool)
    ensures
        r == contains_pair(s@, c),
{
    let n = s.len();
    if n < 2 {
        return false;
    }
    let mut i: usize = 0;
    while i + 1 < n
        invariant
            n == s@.len(),
            n >= 2,
            i + 1 <= n,
            forall|j: int| 0 <= j < i ==> !(#[trigger] s@[j] == c && s@[j + 1] == c),
        decreases n - i,
    {
        if s[i] == c && s[i + 1] == c {
            return true;
        }
        i = i + 1;
    }
    false
}

pub fn ascii_lower_exec(c: char) -> (r: char)
    ensures
        r == ascii_lower(c),
{
    let v = c as u32;
    if 65 <= v && v <= 90 {
        let u = (v + 32) as u8;
        u as char
    } else {
        c
    }
}

fn ends_with_dot_git_exec(s: &[char]) -> (r: bool)
    ensures
        r == ends_with_dot_git(s@),
{
    let n = s.len();
    if n < 4 {
        return false;
    }
    let a = ascii_lower_exec(s[n - 4]);
    let b = ascii_lower_exec(s[n - 3]);
    let c = ascii_lower_exec(s[n - 2]);
    let d = ascii_lower_exec(s[n - 1]);
    let r = a == '.' && b == 'g' && c == 'i' && d == 't';
    let ghost tail = lower(s@).subrange(n - 4, n as int);
    assert(tail[0] == a && tail[1] == b && tail[2] == c && tail[3] == d);
    if r {
        assert(tail =~= seq!['.', 'g', 'i', 't']);
    } else {
        assert(tail != seq!['.', 'g', 'i', 't']) by {
            if tail == seq!['.', 'g', 'i', 't'] {
                assert(tail[0] == '.' && tail[1] == 'g' && tail[2] == 'i' && tail[3] == 't');
            }
        }
    }
    r
}

/// True when `value` is a Hugging Face `owner/name` repository id.
pub fn is_valid_repo_id(value: &str) -> (r: bool)
    ensures
        r == spec_valid_repo_id(value@),
{
    let s = chars_of(value);
    let n = s.len();
    // Locate the first '/'.
    let mut k: usize = 0;
    while k < n && s[k] != '/'
        invariant
            s@ == value@,
            n == s@.len(),
            k <= n,
            forall|j: int| 0 <= j < k ==> s@[j] != '/',
        decreases n - k,
    {
        k = k + 1;
    }
    if k == n {
        assert forall|k2: int| 0 <= k2 < s@.len() implies #[trigger] s@[k2] != '/' by {}
        return false;
    }
    let owner_ok = is_repo_segment(s.as_slice(), 0, k);
    let name_ok = is_repo_segment(s.as_slice(), k + 1, n);
    let r = owner_ok && name_ok && n <= MAX_HF_REPO_ID_BYTES && !has_pair(s.as_slice(), '-')
        && !has_pair(s.as_slice(), '.') && !ends_with_dot_git_exec(s.as_slice());
    proof {
        assert(s@.subrange(0, k as int) =~= s@.take(k as int));
        assert(s@.subrange(k + 1, n as int) =~= s@.skip(k + 1));
        if r {
            assert(s@[k as int] == '/');
        } else {
            assert forall|k2: int|
                0 <= k2 < s@.len() && #[trigger] s@[k2] == '/' implies !({
                &&& spec_valid_repo_segment(s@.take(k2))
                &&& spec_valid_repo_segment(s@.skip(k2 + 1))
                &&& s@.len() <= MAX_HF_REPO_ID_BYTES
                &&& !contains_pair(s@, '-')
                &&& !contains_pair(s@, '.')
                &&& !ends_with_dot_git(s@)
            }) by {
                if k2 > k {
                    // The owner would contain the first '/'.
                    assert(!is_repo_id_char(s@.take(k2)[k as int]));
                } else if k2 == k {
                } else {
                    assert(false);
                }
            }
        }
    }
    r
}

} // verus!
