//! Hexadecimal text, as the outside parsers of addresses and keys read it.

use vstd::prelude::*;

verus! {

/// An ASCII hexadecimal digit, either case.
pub open spec fn is_hex_digit(c: char) -> bool {
    ('0' <= c && c <= '9') || ('a' <= c && c <= 'f') || ('A' <= c && c <= 'F')
}

/// The white space that a hex decoder may skip between digits.
pub open spec fn is_hex_space(c: char) -> bool {
    c == ' ' || c == '\r' || c == '\n' || c == '\t'
}

/// The value of one hexadecimal digit.
pub open spec fn hex_digit_value(c: char) -> nat {
    if '0' <= c && c <= '9' {
        (c as u32 - '0' as u32) as nat
    } else if 'a' <= c && c <= 'f' {
        (c as u32 - 'a' as u32 + 10) as nat
    } else {
        (c as u32 - 'A' as u32 + 10) as nat
    }
}

/// Every character is a hexadecimal digit.
pub open spec fn all_hex_digits(s: Seq<char>) -> bool {
    forall|i: int| 0 <= i < s.len() ==> is_hex_digit(#[trigger] s[i])
}

/// The bytes that a run of hexadecimal digits spells, two digits each, the
/// high half first.
pub open spec fn hex_bytes(d: Seq<char>) -> Seq<u8> {
    Seq::new(
        d.len() / 2,
        |i: int| (16 * hex_digit_value(d[2 * i]) + hex_digit_value(d[2 * i + 1])) as u8,
    )
}

/// The number that bytes spell, most significant byte first.
pub open spec fn big_endian_value(b: Seq<u8>) -> nat
    decreases b.len(),
{
    if b.len() == 0 {
        0
    } else {
        big_endian_value(b.drop_last()) * 256 + b.last() as nat
    }
}

} // verus!
