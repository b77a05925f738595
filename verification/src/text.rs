//! Bytes as text: ASCII letters read as characters, and the conversion of
//! bytes into an owned string.

use vstd::prelude::*;
use vstd::utf8::{
    decode_utf8, encode_utf8, encode_utf8_decode_utf8, encode_utf8_valid_utf8, is_ascii_chars,
    is_ascii_chars_encode_utf8, valid_utf8,
};
use crate::ascii::{all_ascii_letters, is_ascii_letter};

verus! {

/// Each byte of `bytes` read as the character with that code.
pub open spec fn as_chars(bytes: Seq<u8>) -> Seq<char> {
    Seq::new(bytes.len(), |i: int| bytes[i] as char)
}

/// Each character of `chars` read as the byte with that code. This is meant
/// for characters below 256.
pub open spec fn as_bytes(chars: Seq<char>) -> Seq<u8> {
    Seq::new(chars.len(), |i: int| chars[i] as u8)
}

/// A sequence of ASCII letters is well-formed UTF-8, and is the encoding of
/// the characters that its bytes stand for, one byte each.
pub proof fn lemma_letters_are_utf8(bytes: Seq<u8>)
    requires
        all_ascii_letters(bytes),
    ensures
        is_ascii_chars(as_chars(bytes)),
        as_bytes(as_chars(bytes)) == bytes,
        encode_utf8(as_chars(bytes)) == bytes,
        valid_utf8(bytes),
        decode_utf8(bytes) == as_chars(bytes),
{
    let chars = as_chars(bytes);
    assert forall|i: int| 0 <= i < chars.len() implies '\0' <= #[trigger] chars[i] <= '\u{7f}' by {
        assert(is_ascii_letter(bytes[i]));
    }
    assert(as_bytes(chars) =~= bytes);
    is_ascii_chars_encode_utf8(chars);
    assert(encode_utf8(chars) =~= bytes);
    encode_utf8_valid_utf8(chars);
    encode_utf8_decode_utf8(chars);
}

/// `String::from_utf8` of the standard library, with its error dropped.
/// Nothing here is proved: the contract restates what the standard library
/// documents. The bytes are accepted exactly when they are well-formed
/// UTF-8, and the string that comes back is then made of those very bytes.
#[verifier::external_body]
pub(crate) fn string_from_utf8(bytes: Vec<u8>) -> (r: Option<String>)
    ensures
        r is Some <==> valid_utf8(bytes@),
        r matches Some(s) ==> encode_utf8(s@) == bytes@,
{
    String::from_utf8(bytes).ok()
}

} // verus!
