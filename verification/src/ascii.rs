//! ASCII letters as bytes, and what bit 5 of a letter says about its case.

use vstd::prelude::*;

verus! {

/// The mask that selects bit 5 of a byte, counting from the lowest bit as
/// bit 0.
pub const BIT_FIVE: u8 = 0x20;

/// `b` is one of `A`..=`Z`.
pub open spec fn is_uppercase(b: u8) -> bool {
    65 <= b <= 90
}

/// `b` is one of `a`..=`z`.
pub open spec fn is_lowercase(b: u8) -> bool {
    97 <= b <= 122
}

/// `b` is an ASCII letter of either case.
pub open spec fn is_ascii_letter(b: u8) -> bool {
    is_uppercase(b) || is_lowercase(b)
}

/// `c` is an ASCII letter of either case.
pub open spec fn is_ascii_letter_char(c: char) -> bool {
    'A' <= c <= 'Z' || 'a' <= c <= 'z'
}

/// Every byte of `bytes` is an ASCII letter.
pub open spec fn all_ascii_letters(bytes: Seq<u8>) -> bool {
    forall|i: int| 0 <= i < bytes.len() ==> is_ascii_letter(#[trigger] bytes[i])
}

/// Bit 5 of `b` is set: the binary digit of `b` that weighs 32 is a one.
pub open spec fn bit_five_set(b: u8) -> bool {
    (b as int / 32) % 2 == 1
}

/// Among the ASCII letters, bit 5 is set in the lowercase ones and clear in
/// the uppercase ones.
pub proof fn lemma_bit_five_is_case(b: u8)
    requires
        is_ascii_letter(b),
    ensures
        bit_five_set(b) <==> is_lowercase(b),
        !bit_five_set(b) <==> is_uppercase(b),
{
}

/// Tells whether `b` is an ASCII letter.
pub fn is_letter(b: u8) -> (r: bool)
    ensures
        r == is_ascii_letter(b),
{
    !(b < 65 || (b > 90 && b < 97) || b > 122)
}

/// Tells whether bit 5 of `b` is set.
pub fn has_bit_five(b: u8) -> (r: bool)
    ensures
        r == bit_five_set(b),
{
    assert(((b & 0x20) != 0) == ((b / 32) % 2 == 1)) by (bit_vector);
    (b & BIT_FIVE) != 0
}

} // verus!
