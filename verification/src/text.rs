//! Character-level predicates and string helpers shared by the identifier
//! grammars and path rules.

use vstd::prelude::*;
use vstd::string::StrSliceExecFns;

verus! {

/// Number of bytes in the UTF-8 encoding of one character.
pub open spec fn char_width(c: char) -> nat {
    if (c as u32) < 0x80 {
        1
    } else if (c as u32) < 0x800 {
        2
    } else if (c as u32) < 0x10000 {
        3
    } else {
        4
    }
}

/// Number of bytes in the UTF-8 encoding of a character sequence.
pub open spec fn byte_len(s: Seq<char>) -> nat
    decreases s.len(),
{
    if s.len() == 0 {
        0
    } else {
        byte_len(s.drop_last()) + char_width(s.last())
    }
}

pub open spec fn is_ascii_digit(c: char) -> bool {
    48 <= c as u32 <= 57
}

pub open spec fn is_ascii_lower(c: char) -> bool {
    97 <= c as u32 <= 122
}

pub open spec fn is_ascii_upper(c: char) -> bool {
    65 <= c as u32 <= 90
}

pub open spec fn is_ascii_alphanumeric(c: char) -> bool {
    is_ascii_digit(c) || is_ascii_lower(c) || is_ascii_upper(c)
}

/// Characters of the Unicode `Cc` category.
pub open spec fn is_control(c: char) -> bool {
    (c as u32) <= 0x1f || (0x7f <= (c as u32) && (c as u32) <= 0x9f)
}

/// ASCII upper-casing of one character; other characters are unchanged.
pub open spec fn ascii_upper(c: char) -> char {
    if is_ascii_lower(c) {
        ((c as u32) - 32) as char
    } else {
        c
    }
}

/// ASCII lower-casing of one character; other characters are unchanged.
pub open spec fn ascii_lower(c: char) -> char {
    if is_ascii_upper(c) {
        ((c as u32) + 32) as char
    } else {
        c
    }
}

/// Characters that separate or trail ASCII whitespace trimming.
pub open spec fn is_trim_space(c: char) -> bool {
    c == ' ' || c == '\t' || c == '\n' || c == '\r' || c == '\x0b' || c == '\x0c'
        || c as u32 == 0x85 || c as u32 == 0xa0 || c as u32 == 0x1680 || (0x2000 <= c as u32
        && c as u32 <= 0x200a) || c as u32 == 0x2028 || c as u32 == 0x2029 || c as u32 == 0x202f
        || c as u32 == 0x205f || c as u32 == 0x3000
}

/// True when every character of `s` is whitespace, i.e. `s.trim()` is empty.
pub open spec fn is_blank(s: Seq<char>) -> bool {
    forall|i: int| 0 <= i < s.len() ==> #[trigger] is_trim_space(s[i])
}

pub fn char_width_exec(c: char) -> (w: usize)
    ensures
        w == char_width(c),
{
    let v = c as u32;
    if v < 0x80 {
        1
    } else if v < 0x800 {
        2
    } else if v < 0x10000 {
        3
    } else {
        4
    }
}

pub fn is_ascii_alphanumeric_exec(c: char) -> (r: bool)
    ensures
        r == is_ascii_alphanumeric(c),
{
    let v = c as u32;
    (48 <= v && v <= 57) || (97 <= v && v <= 122) || (65 <= v && v <= 90)
}

pub fn is_control_exec(c: char) -> (r: bool)
    ensures
        r == is_control(c),
{
    let v = c as u32;
    v <= 0x1f || (0x7f <= v && v <= 0x9f)
}

pub fn is_trim_space_exec(c: char) -> (r: bool)
    ensures
        r == is_trim_space(c),
{
    let v = c as u32;
    v == 0x20 || v == 0x09 || v == 0x0a || v == 0x0d || v == 0x0b || v == 0x0c || v == 0x85
        || v == 0xa0 || v == 0x1680 || (0x2000 <= v && v <= 0x200a) || v == 0x2028 || v
        == 0x2029 || v == 0x202f || v == 0x205f || v == 0x3000
}

pub fn ascii_upper_exec(c: char) -> (r: char)
    ensures
        r == ascii_upper(c),
{
    let v = c as u32;
    if 97 <= v && v <= 122 {
        let u = (v - 32) as u8;
        u as char
    } else {
        c
    }
}

/// The characters of `s`, in order.
pub fn chars_of(s: &str) -> (v: Vec<char>)
    ensures
        v@ == s@,
{
    let len = s.unicode_len();
    let mut v: Vec<char> = Vec::new();
    let mut i: usize = 0;
    while i < len
        invariant
            len == s@.len(),
            i <= len,
            v@ == s@.take(i as int),
        decreases len - i,
    {
        let c = s.get_char(i);
        v.push(c);
        proof {
            assert(v@ =~= s@.take(i + 1));
        }
        i = i + 1;
    }
    proof {
        assert(s@.take(len as int) =~= s@);
    }
    v
}

/// True when the UTF-8 encoding of `s[start..end]` has at most `limit` bytes.
pub fn byte_len_at_most(s: &[char], start: usize, end: usize, limit: usize) -> (r: bool)
    requires
        start <= end <= s@.len(),
        limit <= 0x1000_0000,
    ensures
        r == (byte_len(s@.subrange(start as int, end as int)) <= limit),
{
    let mut i: usize = start;
    let mut n: usize = 0;
    while i < end
        invariant
            start <= i <= end <= s@.len(),
            n == byte_len(s@.subrange(start as int, i as int)),
            n <= limit,
        decreases end - i,
    {
        proof {
            assert(s@.subrange(start as int, i + 1).drop_last() =~= s@.subrange(
                start as int,
                i as int,
            ));
        }
        let w = char_width_exec(s[i]);
        if w > limit - n {
            proof {
                lemma_byte_len_mono(s@.subrange(start as int, end as int), (i + 1 - start) as nat);
                assert(s@.subrange(start as int, end as int).take((i + 1 - start) as int)
                    =~= s@.subrange(start as int, i + 1));
            }
            return false;
        }
        n = n + w;
        i = i + 1;
    }
    true
}

/// Every character takes at least one byte.
pub proof fn lemma_byte_len_at_least_len(s: Seq<char>)
    ensures
        byte_len(s) >= s.len(),
    decreases s.len(),
{
    if s.len() > 0 {
        lemma_byte_len_at_least_len(s.drop_last());
    }
}

/// The byte length of a prefix never exceeds that of the whole sequence.
pub proof fn lemma_byte_len_mono(s: Seq<char>, k: nat)
    requires
        k <= s.len(),
    ensures
        byte_len(s.take(k as int)) <= byte_len(s),
    decreases s.len(),
{
    if k < s.len() {
        assert(s.drop_last().take(k as int) =~= s.take(k as int));
        lemma_byte_len_mono(s.drop_last(), k);
    } else {
        assert(s.take(k as int) =~= s);
    }
}

/// True when `s.trim()` is empty.
pub fn is_blank_exec(s: &str) -> (r: bool)
    ensures
        r == is_blank(s@),
{
    let len = s.unicode_len();
    let mut i: usize = 0;
    while i < len
        invariant
            len == s@.len(),
            i <= len,
            forall|j: int| 0 <= j < i ==> #[trigger] is_trim_space(s@[j]),
        decreases len - i,
    {
        if !is_trim_space_exec(s.get_char(i)) {
            return false;
        }
        i = i + 1;
    }
    true
}

} // verus!
