//! Course identifiers.
//!
//! A course is known by a UUID. Inside the library the identifier is the
//! 128-bit number that the UUID packs, most significant byte first; text is
//! turned into that number, and back, by the `uuid` crate.

use crate::text::hex_digit_char;
use vstd::prelude::*;

verus! {

/// What `uuid::Uuid::parse_str` makes of a text: the identifier's 128-bit
/// value, or nothing where the text is not a UUID in one of the forms the
/// crate reads (simple, hyphenated, URN, braced).
pub uninterp spec fn parsed_uuid(text: Seq<char>) -> Option<u128>;

/// The hexadecimal digit of `id` at place `k`, counting from the most
/// significant of its 32 digits.
pub open spec fn uuid_digit(id: u128, k: int) -> char {
    hex_digit_char(((id >> ((4 * (31 - k)) as u128)) & 0xf) as nat)
}

/// The hyphenated form of an identifier: its 32 hexadecimal digits in lower
/// case, in groups of 8, 4, 4, 4 and 12 with a hyphen between them.
pub open spec fn uuid_text(id: u128) -> Seq<char> {
    Seq::new(
        36,
        |i: int|
            if i == 8 || i == 13 || i == 18 || i == 23 {
                '-'
            } else if i < 8 {
                uuid_digit(id, i)
            } else if i < 13 {
                uuid_digit(id, i - 1)
            } else if i < 18 {
                uuid_digit(id, i - 2)
            } else if i < 23 {
                uuid_digit(id, i - 3)
            } else {
                uuid_digit(id, i - 4)
            },
    )
}

/// Reads a course identifier with `uuid::Uuid::parse_str` and packs it with
/// `Uuid::as_u128`. The result is the crate's reading of the text and depends
/// on the text alone.
#[verifier::external_body]
pub(crate) fn parse_uuid(text: &str) -> (id: Option<u128>)
    ensures
        id == parsed_uuid(text@),
{
    match uuid::Uuid::parse_str(text) {
        Ok(parsed) => Some(parsed.as_u128()),
        Err(_) => None,
    }
}

/// Writes a course identifier as `uuid::Uuid::from_u128(id).to_string()`
/// does. `from_u128` takes the value most significant byte first, and the
/// crate's `Display` writes the hyphenated lower-case form: 32 hexadecimal
/// digits in five groups.
#[verifier::external_body]
pub(crate) fn format_uuid(id: u128) -> (text: String)
    ensures
        text@ == uuid_text(id),
{
    uuid::Uuid::from_u128(id).to_string()
}

/// Reads the course identifier of a request. Text that is not a UUID is
/// refused.
pub fn parse_course_id(text: &str) -> (id: Option<u128>)
    ensures
        id == parsed_uuid(text@),
{
    parse_uuid(text)
}

/// Writes a course identifier in its hyphenated form.
pub fn course_id_text(id: u128) -> (text: String)
    ensures
        text@ == uuid_text(id),
{
    format_uuid(id)
}

} // verus!
