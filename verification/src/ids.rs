//! Identifiers and times, which no two calls share.

use vstd::prelude::*;

use crate::text;

verus! {

/// The small hexadecimal digits.
pub open spec fn is_hex(c: char) -> bool {
    ('0' <= c <= '9') || ('a' <= c <= 'f')
}

/// The digits that give the variant of a random identifier.
pub open spec fn is_variant_digit(c: char) -> bool {
    c == '8' || c == '9' || c == 'a' || c == 'b'
}

/// A random identifier as it is written with hyphens: groups of 8, 4, 4, 4 and 12
/// hexadecimal digits, the third of which begins with the version.
pub open spec fn is_uuid_text(s: Seq<char>) -> bool {
    &&& s.len() == 36
    &&& s[14] == '4'
    &&& is_variant_digit(s[19])
    &&& forall|i: int|
        0 <= i < 36 ==> if i == 8 || i == 13 || i == 18 || i == 23 {
            #[trigger] s[i] == '-'
        } else {
            is_hex(s[i])
        }
}

/// A random identifier as it is written without hyphens.
pub open spec fn is_simple_uuid_text(s: Seq<char>) -> bool {
    &&& s.len() == 32
    &&& s[12] == '4'
    &&& is_variant_digit(s[16])
    &&& forall|i: int| 0 <= i < 32 ==> is_hex(#[trigger] s[i])
}

/// `uuid::Uuid::new_v4` and its `Display` impl: a random identifier, written in
/// small hexadecimal digits with hyphens. Which one it is depends on chance.
#[verifier::external_body]
pub(crate) fn uuid_text() -> (r: String)
    ensures
        is_uuid_text(r@),
{
    uuid::Uuid::new_v4().to_string()
}

/// `uuid::Uuid::new_v4` and `uuid::Uuid::simple`: a random identifier, written in
/// small hexadecimal digits without hyphens. Which one it is depends on chance.
#[verifier::external_body]
pub(crate) fn simple_uuid_text() -> (r: String)
    ensures
        is_simple_uuid_text(r@),
{
    uuid::Uuid::new_v4().simple().to_string()
}

/// `chrono::Utc::now` in seconds since the epoch. It depends on the clock alone,
/// so nothing is claimed of it.
#[verifier::external_body]
pub(crate) fn now_seconds() -> (r: i64)
{
    chrono::Utc::now().timestamp()
}

/// A time as it is written for the zero meridian.
pub open spec fn is_utc_text(s: Seq<char>) -> bool {
    text::ends_with_of(s, "+00:00"@)
}

/// `chrono::Utc::now` and `chrono::DateTime::to_rfc3339`: the present time, as a text
/// that ends with the offset of the zero meridian. The rest of the text depends on the
/// clock, and nothing is claimed of it.
#[verifier::external_body]
pub(crate) fn now_text() -> (r: String)
    ensures
        is_utc_text(r@),
{
    chrono::Utc::now().to_rfc3339()
}

/// The identifiers that this library gives to responses.
pub open spec fn is_response_id(s: Seq<char>) -> bool {
    exists|u: Seq<char>| #[trigger] is_uuid_text(u) && s == "openfusion-"@ + u
}

/// A new identifier for a response.
pub fn response_id() -> (r: String)
    ensures
        is_response_id(r@),
{
    let u = uuid_text();
    text::concat("openfusion-", u.as_str())
}

} // verus!
