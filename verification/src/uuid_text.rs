//! Attempt identifiers are UUIDs, parsed and generated by the `uuid` crate.

use crate::text::ascii_lower;
use vstd::prelude::*;

verus! {

/// An ASCII hexadecimal digit, in either case.
pub open spec fn is_hex_char(c: char) -> bool {
    ('0' as int <= c as int <= '9' as int) || ('a' as int <= c as int <= 'f' as int) || ('A' as int <= c as int
        <= 'F' as int)
}

/// The hyphenated form: 36 characters, hyphens at 8, 13, 18 and 23, hex
/// digits elsewhere.
pub open spec fn hyphenated_uuid(s: Seq<char>) -> bool {
    &&& s.len() == 36
    &&& forall|i: int|
        0 <= i < 36 ==> if i == 8 || i == 13 || i == 18 || i == 23 {
            #[trigger] s[i] == '-'
        } else {
            is_hex_char(s[i])
        }
}

/// Whether `uuid::Uuid::parse_str` accepts the text: 32 hex digits; the
/// hyphenated form; the hyphenated form in braces; or the hyphenated form
/// after `urn:uuid:` in any ASCII case.
pub open spec fn uuid_parses(text: Seq<char>) -> bool {
    ||| text.len() == 32 && forall|i: int| 0 <= i < 32 ==> is_hex_char(#[trigger] text[i])
    ||| hyphenated_uuid(text)
    ||| text.len() == 38 && text[0] == '{' && text[37] == '}' && hyphenated_uuid(text.subrange(1, 37))
    ||| text.len() == 45 && (forall|i: int| 0 <= i < 9 ==> ascii_lower(#[trigger] text[i]) == "urn:uuid:"@[i])
        && hyphenated_uuid(text.skip(9))
}

/// The text of the error that `uuid::Uuid::parse_str` reports for the input.
pub uninterp spec fn uuid_error_text(text: Seq<char>) -> Seq<char>;

/// Calls `uuid::Uuid::parse_str`: `None` when the text has the grammar of
/// `uuid_parses`, else the error rendered with `to_string`, whose wording
/// is the crate's and is only named.
#[verifier::external_body]
pub(crate) fn uuid_parse_error(text: &str) -> (r: Option<String>)
    ensures
        r is None <==> uuid_parses(text@),
        r matches Some(m) ==> m@ == uuid_error_text(text@),
{
    match uuid::Uuid::parse_str(text) {
        Ok(_) => None,
        Err(error) => Some(error.to_string()),
    }
}

/// Whether the text is an attempt identifier.
pub fn uuid_is_valid(text: &str) -> (r: bool)
    ensures
        r == uuid_parses(text@),
{
    uuid_parse_error(text).is_none()
}

/// Generates a random version-4 UUID with `uuid::Uuid::new_v4` and renders it
/// with `to_string`. The contract states only that the hyphenated rendering
/// is accepted again by `uuid::Uuid::parse_str`; the value itself is random.
#[verifier::external_body]
pub(crate) fn new_attempt_id() -> (r: String)
    ensures
        uuid_parses(r@),
{
    uuid::Uuid::new_v4().to_string()
}

} // verus!
