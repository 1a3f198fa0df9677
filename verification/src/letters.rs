//! The 26-letter alphabet a round works over: letter predicates, ASCII case
//! mapping, and the display rule that masks anything not uppercase.

use vstd::prelude::*;

verus! {

/// ASCII code of 'a'.
pub const LOWER_A: u8 = 97;

/// ASCII code of 'z'.
pub const LOWER_Z: u8 = 122;

/// ASCII code of 'A'.
pub const UPPER_A: u8 = 65;

/// ASCII code of 'Z'.
pub const UPPER_Z: u8 = 90;

/// ASCII code of '_', the placeholder shown for a masked letter.
pub const UNDERSCORE: u8 = 95;

/// Distance between an uppercase ASCII letter and its lowercase form.
pub const CASE_GAP: u8 = 32;

/// True of the bytes `a..=z`.
pub open spec fn is_lower_letter(b: u8) -> bool {
    LOWER_A <= b && b <= LOWER_Z
}

/// True of the bytes `A..=Z`.
pub open spec fn is_upper_letter(b: u8) -> bool {
    UPPER_A <= b && b <= UPPER_Z
}

/// True of any Latin letter byte, either case.
pub open spec fn is_letter(b: u8) -> bool {
    is_lower_letter(b) || is_upper_letter(b)
}

/// ASCII lowercasing of one byte; bytes outside `A..=Z` pass through.
pub open spec fn spec_to_lower(b: u8) -> u8 {
    if is_upper_letter(b) {
        (b + CASE_GAP) as u8
    } else {
        b
    }
}

/// ASCII uppercasing of one byte; bytes outside `a..=z` pass through.
pub open spec fn spec_to_upper(b: u8) -> u8 {
    if is_lower_letter(b) {
        (b - CASE_GAP) as u8
    } else {
        b
    }
}

/// A whole word lowercased, byte by byte.
pub open spec fn lower_seq(s: Seq<u8>) -> Seq<u8> {
    s.map(|i: int, b: u8| spec_to_lower(b))
}

/// A whole word uppercased, byte by byte.
pub open spec fn upper_seq(s: Seq<u8>) -> Seq<u8> {
    s.map(|i: int, b: u8| spec_to_upper(b))
}

/// Position of a lowercase letter in the alphabet: 0 for a through 25 for z.
pub open spec fn letter_index(b: u8) -> int {
    b - LOWER_A
}

pub fn to_lower(b: u8) -> (r: u8)
    ensures
        r == spec_to_lower(b),
{
    if UPPER_A <= b && b <= UPPER_Z {
        b + CASE_GAP
    } else {
        b
    }
}

pub fn to_upper(b: u8) -> (r: u8)
    ensures
        r == spec_to_upper(b),
{
    if LOWER_A <= b && b <= LOWER_Z {
        b - CASE_GAP
    } else {
        b
    }
}

/// Display rule for the case-encoded views of the word and the alphabet:
/// an uppercase byte is shown as itself, anything else as an underscore.
pub open spec fn spec_underscore_lowercase(b: u8) -> u8 {
    if is_upper_letter(b) {
        b
    } else {
        UNDERSCORE
    }
}

pub fn underscore_lowercase(b: u8) -> (r: u8)
    ensures
        r == spec_underscore_lowercase(b),
{
    if UPPER_A <= b && b <= UPPER_Z {
        b
    } else {
        UNDERSCORE
    }
}

/// The characters spelled by a sequence of ASCII bytes.
pub open spec fn chars_of_bytes(s: Seq<u8>) -> Seq<char> {
    s.map(|i: int, b: u8| b as char)
}

/// True when every byte is plain ASCII.
pub open spec fn all_ascii(s: Seq<u8>) -> bool {
    forall|i: int| 0 <= i < s.len() ==> s[i] < 128
}

/// Relies on String::from_utf8: a vector of ASCII bytes decodes to the string
/// of exactly those characters.
#[verifier::external_body]
pub fn ascii_to_string(v: Vec<u8>) -> (r: String)
    requires
        all_ascii(v@),
    ensures
        r@ == chars_of_bytes(v@),
{
    match String::from_utf8(v) {
        Ok(s) => s,
        Err(_) => String::new(),
    }
}

} // verus!
