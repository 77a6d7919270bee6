use vstd::prelude::*;

verus! {

/// A hexadecimal digit, in either case.
pub open spec fn is_hex_digit(c: char) -> bool {
    ('0' <= c && c <= '9') || ('a' <= c && c <= 'f') || ('A' <= c && c <= 'F')
}

/// 32 hexadecimal digits.
pub open spec fn is_simple_uuid(s: Seq<char>) -> bool {
    s.len() == 32 && forall|i: int| 0 <= i < 32 ==> is_hex_digit(#[trigger] s[i])
}

/// 32 hexadecimal digits in groups of 8, 4, 4, 4 and 12, joined by hyphens.
pub open spec fn is_hyphenated_uuid(s: Seq<char>) -> bool {
    &&& s.len() == 36
    &&& forall|i: int|
        0 <= i < 36 ==> if i == 8 || i == 13 || i == 18 || i == 23 {
            #[trigger] s[i] == '-'
        } else {
            is_hex_digit(s[i])
        }
}

/// The two characters are equal once ASCII letters are lower-cased.
pub open spec fn eq_ignore_ascii_case(a: char, b: char) -> bool {
    let la = if 'A' <= a && a <= 'Z' { ((a as u32) + 32) as char } else { a };
    let lb = if 'A' <= b && b <= 'Z' { ((b as u32) + 32) as char } else { b };
    la == lb
}

/// The URN prefix `urn:uuid:`, in any ASCII case.
pub open spec fn is_urn_prefix(s: Seq<char>) -> bool {
    let p = seq!['u', 'r', 'n', ':', 'u', 'u', 'i', 'd', ':'];
    s.len() == 9 && forall|i: int| 0 <= i < 9 ==> eq_ignore_ascii_case(#[trigger] s[i], p[i])
}

/// The forms of text that `uuid::Uuid::parse_str` accepts: simple, hyphenated,
/// hyphenated in braces, or hyphenated after a `urn:uuid:` prefix.
pub open spec fn is_uuid_text(s: Seq<char>) -> bool {
    ||| is_simple_uuid(s)
    ||| is_hyphenated_uuid(s)
    ||| (s.len() == 38 && s[0] == '{' && s[37] == '}' && is_hyphenated_uuid(s.subrange(1, 37)))
    ||| (s.len() == 45 && is_urn_prefix(s.subrange(0, 9)) && is_hyphenated_uuid(s.subrange(9, 45)))
}

/// Relies on `uuid::Uuid::parse_str`: it accepts exactly the forms of `is_uuid_text`.
#[verifier::external_body]
pub(crate) fn is_valid_uuid(s: &str) -> (r: bool)
    ensures
        r == is_uuid_text(s@),
{
    uuid::Uuid::parse_str(s).is_ok()
}

/// Relies on `uuid::Uuid::new_v4` and the `Display` of `uuid::Uuid`: a fresh random
/// UUID, written in the hyphenated form.
#[verifier::external_body]
pub(crate) fn new_uuid_text() -> (r: String)
    ensures
        is_hyphenated_uuid(r@),
{
    uuid::Uuid::new_v4().to_string()
}

/// Relies on `chrono::Utc::now` and `DateTime::to_rfc3339`: the current time as
/// RFC 3339 text. Nothing is promised of its value.
#[verifier::external_body]
pub(crate) fn now_rfc3339() -> (r: String) {
    chrono::Utc::now().to_rfc3339()
}

} // verus!
