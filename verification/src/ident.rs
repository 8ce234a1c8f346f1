//! Record identifiers and their textual form.
//!
//! An identifier is a 128-bit value. It is written as a UUID in the
//! hyphenated lower-case form: 32 hexadecimal digits, most significant first,
//! in groups of 8, 4, 4, 4 and 12.

use vstd::prelude::*;

verus! {

/// The lower-case hexadecimal digit for a value below sixteen.
pub open spec fn hex_char(v: u128) -> char {
    if v == 0 {
        '0'
    } else if v == 1 {
        '1'
    } else if v == 2 {
        '2'
    } else if v == 3 {
        '3'
    } else if v == 4 {
        '4'
    } else if v == 5 {
        '5'
    } else if v == 6 {
        '6'
    } else if v == 7 {
        '7'
    } else if v == 8 {
        '8'
    } else if v == 9 {
        '9'
    } else if v == 10 {
        'a'
    } else if v == 11 {
        'b'
    } else if v == 12 {
        'c'
    } else if v == 13 {
        'd'
    } else if v == 14 {
        'e'
    } else {
        'f'
    }
}

/// The value of the `k`-th hexadecimal digit of `id`, counted from the most
/// significant one, for `k` from 0 to 31.
pub open spec fn nibble(id: u128, k: int) -> u128 {
    (id >> ((4 * (31 - k)) as u128)) & 0xf
}

/// The character at position `i` of the hyphenated form of `id`.
pub open spec fn hyphenated_char(id: u128, i: int) -> char {
    if i == 8 || i == 13 || i == 18 || i == 23 {
        '-'
    } else if i < 8 {
        hex_char(nibble(id, i))
    } else if i < 13 {
        hex_char(nibble(id, i - 1))
    } else if i < 18 {
        hex_char(nibble(id, i - 2))
    } else if i < 23 {
        hex_char(nibble(id, i - 3))
    } else {
        hex_char(nibble(id, i - 4))
    }
}

/// The hyphenated form of `id`: 36 characters.
pub open spec fn hyphenated(id: u128) -> Seq<char> {
    Seq::new(36, |i: int| hyphenated_char(id, i))
}

/// Formats `id` with the `uuid` crate: `Uuid::from_u128`, then the `Display`
/// of `Uuid::hyphenated`.
///
/// Trusted: that crate writes the sixteen bytes of `id`, most significant
/// first, as two lower-case hexadecimal digits each, with a hyphen after the
/// 8th, 12th, 16th and 20th digit.
#[verifier::external_body]
pub(crate) fn hyphenated_text(id: u128) -> (s: String)
    ensures
        s@ == hyphenated(id),
{
    uuid::Uuid::from_u128(id).hyphenated().to_string()
}

} // verus!
