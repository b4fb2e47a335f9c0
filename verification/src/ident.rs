//! Identifiers of users and loans.
//!
//! An identifier is a UUID, held as the 128-bit number that its sixteen bytes
//! spell in big-endian order.  Generating one and converting between the
//! number and its text is left to the `uuid` crate.

use crate::text::digit_char;
use vstd::arithmetic::power::pow;
use vstd::prelude::*;

verus! {

/// The bits of a UUID that hold its version and its variant.
pub const VERSION_VARIANT_MASK: u128 = 0x0000_0000_0000_F000_C000_0000_0000_0000;

/// Version 4 (random) in the RFC 4122 variant.
pub const RANDOM_RFC4122: u128 = 0x0000_0000_0000_4000_8000_0000_0000_0000;

/// Whether `id` is marked as a randomly generated UUID.
pub open spec fn is_random_uuid(id: u128) -> bool {
    id & VERSION_VARIANT_MASK == RANDOM_RFC4122
}

/// The character of a hexadecimal digit, in lower case.
pub open spec fn hex_char(d: int) -> char {
    if d < 10 {
        digit_char(d)
    } else if d == 10 {
        'a'
    } else if d == 11 {
        'b'
    } else if d == 12 {
        'c'
    } else if d == 13 {
        'd'
    } else if d == 14 {
        'e'
    } else {
        'f'
    }
}

/// The k-th of the 32 hexadecimal digits of an identifier, counted from the
/// most significant.
pub open spec fn hex_digit_at(id: u128, k: int) -> int {
    (id as int / pow(16, (31 - k) as nat)) % 16
}

/// The text of an identifier: its 32 hexadecimal digits in lower case, most
/// significant first, in groups of 8, 4, 4, 4 and 12 with a hyphen between
/// groups.
pub open spec fn uuid_text(id: u128) -> Seq<char> {
    Seq::new(
        36,
        |i: int|
            if i == 8 || i == 13 || i == 18 || i == 23 {
                '-'
            } else if i < 8 {
                hex_char(hex_digit_at(id, i))
            } else if i < 13 {
                hex_char(hex_digit_at(id, i - 1))
            } else if i < 18 {
                hex_char(hex_digit_at(id, i - 2))
            } else if i < 23 {
                hex_char(hex_digit_at(id, i - 3))
            } else {
                hex_char(hex_digit_at(id, i - 4))
            },
    )
}

/// The identifier that `uuid` reads from a text, if it reads one.
pub uninterp spec fn uuid_value(text: Seq<char>) -> Option<u128>;

/// Draws a fresh identifier with `uuid::Uuid::new_v4`.
///
/// The value is random; all that is claimed is that it carries the version
/// and variant marks of a random UUID.
#[verifier::external_body]
pub(crate) fn fresh_id() -> (id: u128)
    ensures
        is_random_uuid(id),
{
    uuid::Uuid::new_v4().as_u128()
}

/// Writes an identifier with the `Display` form of `uuid::Uuid`, which is the
/// hyphenated form in lower case.
#[verifier::external_body]
pub(crate) fn format_id(id: u128) -> (text: String)
    ensures
        text@ == uuid_text(id),
{
    uuid::Uuid::from_u128(id).to_string()
}

/// Reads an identifier with `uuid::Uuid::parse_str`.
///
/// Whether the text is accepted, and as which identifier, is a function of
/// the text alone and is only named here.
#[verifier::external_body]
pub(crate) fn parse_id(text: &str) -> (r: Option<u128>)
    ensures
        r == uuid_value(text@),
{
    match uuid::Uuid::parse_str(text) {
        Ok(id) => Some(id.as_u128()),
        Err(_) => None,
    }
}

} // verus!
