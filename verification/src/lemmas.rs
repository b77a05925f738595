//! What holds of construction, of rendering as text and of reading the text
//! back, for every input.

use vstd::prelude::*;
use vstd::std_specs::cmp::PartialEqSpec;
use vstd::string::StringSliceAdditionalSpecFns;
use vstd::utf8::{encode_utf8_decode_utf8, is_ascii_chars_encode_utf8};
use crate::ascii::{all_ascii_letters, is_ascii_letter, is_ascii_letter_char};
use crate::chunk_type::{check_code, lemma_eq_is_bytewise, outcome, ChunkType};
use crate::error::ValidationError;
use crate::text::{as_bytes, as_chars, lemma_letters_are_utf8};

verus! {

/// Four bytes that are all ASCII letters are accepted, and the chunk type
/// made of them holds exactly those bytes.
pub proof fn lemma_letters_are_accepted(arr: [u8; 4])
    requires
        all_ascii_letters(arr@),
    ensures
        check_code(arr@) == Ok::<Seq<u8>, ValidationError>(arr@),
{
}

/// Four bytes of which at least one is not an ASCII letter are refused for
/// their encoding.
pub proof fn lemma_other_bytes_are_refused(arr: [u8; 4])
    requires
        exists|i: int| 0 <= i < 4 && !is_ascii_letter(#[trigger] arr@[i]),
    ensures
        check_code(arr@) == Err::<Seq<u8>, ValidationError>(ValidationError::NotAsciiLetter),
{
}

/// The texts that are accepted are exactly those of four ASCII letters, and
/// the bytes of such a text are the codes of its letters, one byte each.
pub proof fn lemma_accepted_texts(s: &str)
    ensures
        check_code(s.spec_bytes()) is Ok <==> (s@.len() == 4 && forall|i: int|
            0 <= i < 4 ==> is_ascii_letter_char(#[trigger] s@[i])),
        check_code(s.spec_bytes()) is Ok ==> s.spec_bytes() == as_bytes(s@) && s@ == as_chars(
            s.spec_bytes(),
        ),
{
    let bytes = s.spec_bytes();
    if check_code(bytes) is Ok {
        lemma_letters_are_utf8(bytes);
        encode_utf8_decode_utf8(s@);
        assert forall|i: int| 0 <= i < 4 implies is_ascii_letter_char(#[trigger] s@[i]) by {
            assert(is_ascii_letter(bytes[i]));
        }
    }
    if s@.len() == 4 && forall|i: int| 0 <= i < 4 ==> is_ascii_letter_char(#[trigger] s@[i]) {
        assert forall|i: int| 0 <= i < s@.len() implies '\0' <= #[trigger] s@[i] <= '\u{7f}' by {
            assert(is_ascii_letter_char(s@[i]));
        }
        is_ascii_chars_encode_utf8(s@);
        assert forall|i: int| 0 <= i < bytes.len() implies is_ascii_letter(
            #[trigger] bytes[i],
        ) by {
            assert(is_ascii_letter_char(s@[i]));
            assert(bytes[i] == s@[i] as u8);
        }
    }
}

/// A text of four ASCII letters is accepted, and building from the text and
/// building from its bytes, here `arr`, come to the same chunk type.
pub proof fn lemma_text_and_bytes_agree(s: &str, arr: [u8; 4])
    requires
        s@.len() == 4,
        forall|i: int| 0 <= i < 4 ==> is_ascii_letter_char(#[trigger] s@[i]),
        arr@ == s.spec_bytes(),
    ensures
        check_code(s.spec_bytes()) == check_code(arr@),
        check_code(arr@) == Ok::<Seq<u8>, ValidationError>(arr@),
{
    lemma_accepted_texts(s);
}

/// Rendering a chunk type as text and building a chunk type from that text
/// gives back an equal chunk type. Here `text` is what
/// [`ChunkType::to_string`] returns for `c`, and `r` is what
/// [`ChunkType::from_str`] returns for `text`.
pub proof fn lemma_text_round_trip(c: ChunkType, text: &str, r: Result<ChunkType, ValidationError>)
    requires
        c.well_formed(),
        text@ == as_chars(c@),
        outcome(r) == check_code(text.spec_bytes()),
    ensures
        r matches Ok(d) && d.eq_spec(&c) && d == c,
{
    lemma_letters_are_utf8(c@);
    assert(text.spec_bytes() == c@);
    lemma_eq_is_bytewise(r->Ok_0, c);
}

} // verus!
