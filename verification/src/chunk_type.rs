//! The chunk type itself: a validated four-letter code.

use vstd::prelude::*;
use vstd::slice::slice_to_vec;
use vstd::std_specs::cmp::PartialEqSpec;
use vstd::string::StringSliceAdditionalSpecFns;
use vstd::utf8::encode_utf8_decode_utf8;
use crate::ascii::{
    all_ascii_letters, bit_five_set, has_bit_five, is_ascii_letter, is_letter, is_lowercase,
    is_uppercase, lemma_bit_five_is_case,
};
use crate::error::ValidationError;
use crate::text::{as_chars, lemma_letters_are_utf8, string_from_utf8};

verus! {

/// What validation makes of a candidate byte sequence: the sequence itself
/// where it is four ASCII letters, and otherwise the reason for refusing it.
/// A wrong length is reported before a wrong byte.
pub open spec fn check_code(bytes: Seq<u8>) -> Result<Seq<u8>, ValidationError> {
    if bytes.len() != 4 {
        Err(ValidationError::InvalidLength)
    } else if !all_ascii_letters(bytes) {
        Err(ValidationError::NotAsciiLetter)
    } else {
        Ok(bytes)
    }
}

/// The outcome of a construction with the chunk type replaced by its bytes.
pub open spec fn outcome(r: Result<ChunkType, ValidationError>) -> Result<
    Seq<u8>,
    ValidationError,
> {
    match r {
        Ok(c) => Ok(c@),
        Err(e) => Err(e),
    }
}

/// Copies a slice of exactly four bytes into an array.
fn convert_slice_to_fixed(arr: &[u8]) -> (r: [u8; 4])
    requires
        arr@.len() == 4,
    ensures
        r@ == arr@,
{
    let r: [u8; 4] = [arr[0], arr[1], arr[2], arr[3]];
    assert(r@ =~= arr@);
    r
}

/// A PNG chunk type code: four bytes, each an ASCII letter.
///
/// The only ways to obtain one are [`ChunkType::try_from`] and
/// [`ChunkType::from_str`], so every value that exists has passed validation.
#[derive(Debug, Clone, Copy)]
pub struct ChunkType {
    container: [u8; 4],
}

impl View for ChunkType {
    type V = Seq<u8>;

    closed spec fn view(&self) -> Seq<u8> {
        self.container@
    }
}

impl ChunkType {
    /// The invariant of the type: four bytes, all of them ASCII letters.
    #[verifier::type_invariant]
    pub open spec fn well_formed(&self) -> bool {
        self@.len() == 4 && all_ascii_letters(self@)
    }

    /// Builds a chunk type from four bytes. Succeeds exactly when every byte
    /// is an ASCII letter, and then holds the bytes as given.
    pub fn try_from(arr: [u8; 4]) -> (r: Result<ChunkType, ValidationError>)
        ensures
            outcome(r) == check_code(arr@),
    {
        let mut i: usize = 0;
        while i < 4
            invariant
                i <= 4,
                forall|j: int| 0 <= j < i ==> is_ascii_letter(#[trigger] arr@[j]),
            decreases 4 - i,
        {
            if !is_letter(arr[i]) {
                return Err(ValidationError::NotAsciiLetter);
            }
            i += 1;
        }
        Ok(ChunkType { container: arr })
    }

    /// Builds a chunk type from text. The text has to be four bytes long in
    /// its UTF-8 encoding, whatever its number of characters, and is then
    /// validated as [`ChunkType::try_from`] validates its bytes.
    pub fn from_str(input_str: &str) -> (r: Result<ChunkType, ValidationError>)
        ensures
            outcome(r) == check_code(input_str.spec_bytes()),
    {
        let raw = input_str.as_bytes();
        if raw.len() != 4 {
            return Err(ValidationError::InvalidLength);
        }
        ChunkType::try_from(convert_slice_to_fixed(raw))
    }

    /// The four bytes of the code.
    pub fn bytes(&self) -> (r: [u8; 4])
        ensures
            r@ == self@,
            self.well_formed(),
    {
        proof {
            use_type_invariant(self);
        }
        self.container
    }

    /// Whether the chunk is critical, that is, needed to interpret the image:
    /// bit 5 of the first byte is clear, so the first letter is uppercase.
    /// An ancillary chunk has a lowercase first letter.
    pub fn is_critical(&self) -> (r: bool)
        ensures
            r == !bit_five_set(self@[0]),
            r == is_uppercase(self@[0]),
    {
        proof {
            use_type_invariant(self);
            lemma_bit_five_is_case(self@[0]);
        }
        !has_bit_five(self.container[0])
    }

    /// Whether the chunk type is public, that is, defined by the PNG
    /// standard: bit 5 of the second byte is clear, so the second letter is
    /// uppercase. A private type has a lowercase second letter.
    pub fn is_public(&self) -> (r: bool)
        ensures
            r == !bit_five_set(self@[1]),
            r == is_uppercase(self@[1]),
    {
        proof {
            use_type_invariant(self);
            lemma_bit_five_is_case(self@[1]);
        }
        !has_bit_five(self.container[1])
    }

    /// Whether the reserved bit has the value that the current PNG standard
    /// asks for: bit 5 of the third byte is clear, so the third letter is
    /// uppercase.
    pub fn is_reserved_bit_valid(&self) -> (r: bool)
        ensures
            r == !bit_five_set(self@[2]),
            r == is_uppercase(self@[2]),
    {
        proof {
            use_type_invariant(self);
            lemma_bit_five_is_case(self@[2]);
        }
        !has_bit_five(self.container[2])
    }

    /// Whether an editor that does not know the chunk may copy it unchanged
    /// into a modified file: bit 5 of the fourth byte is set, so the fourth
    /// letter is lowercase. The polarity is the reverse of the other three.
    pub fn is_safe_to_copy(&self) -> (r: bool)
        ensures
            r == bit_five_set(self@[3]),
            r == is_lowercase(self@[3]),
    {
        proof {
            use_type_invariant(self);
            lemma_bit_five_is_case(self@[3]);
        }
        has_bit_five(self.container[3])
    }

    /// Whether the code is valid. This looks at the reserved bit and at
    /// nothing else, so it always agrees with
    /// [`ChunkType::is_reserved_bit_valid`].
    pub fn is_valid(&self) -> (r: bool)
        ensures
            r == !bit_five_set(self@[2]),
            r == is_uppercase(self@[2]),
    {
        self.is_reserved_bit_valid()
    }

    /// The code as text: four characters, one for each byte. This cannot
    /// fail, since ASCII letters are always well-formed UTF-8.
    pub fn to_string(&self) -> (r: String)
        ensures
            r@ == as_chars(self@),
    {
        proof {
            use_type_invariant(self);
            lemma_letters_are_utf8(self@);
        }
        let text = string_from_utf8(slice_to_vec(self.container.as_slice())).unwrap();
        proof {
            encode_utf8_decode_utf8(text@);
        }
        text
    }
}

impl PartialEq for ChunkType {
    /// Two chunk types are equal when their four bytes are the same, in order.
    fn eq(&self, other: &ChunkType) -> (r: bool) {
        let same = self.container[0] == other.container[0] && self.container[1]
            == other.container[1] && self.container[2] == other.container[2]
            && self.container[3] == other.container[3];
        proof {
            if same {
                assert(self@ =~= other@);
            }
        }
        same
    }
}

impl vstd::std_specs::cmp::PartialEqSpecImpl for ChunkType {
    open spec fn obeys_eq_spec() -> bool {
        true
    }

    open spec fn eq_spec(&self, other: &ChunkType) -> bool {
        self@ == other@
    }
}

impl Eq for ChunkType {}

/// Equality is reflexive.
pub proof fn lemma_eq_reflexive(a: ChunkType)
    ensures
        a.eq_spec(&a),
{
}

/// Equality is symmetric.
pub proof fn lemma_eq_symmetric(a: ChunkType, b: ChunkType)
    ensures
        a.eq_spec(&b) == b.eq_spec(&a),
{
}

/// Equality is transitive.
pub proof fn lemma_eq_transitive(a: ChunkType, b: ChunkType, c: ChunkType)
    requires
        a.eq_spec(&b),
        b.eq_spec(&c),
    ensures
        a.eq_spec(&c),
{
}

/// Equality is equality of the four bytes, position by position, and two
/// chunk types that are equal in this sense are one and the same value.
pub proof fn lemma_eq_is_bytewise(a: ChunkType, b: ChunkType)
    ensures
        a@.len() == 4 && b@.len() == 4,
        a.eq_spec(&b) <==> (forall|i: int| 0 <= i < 4 ==> a@[i] == b@[i]),
        a.eq_spec(&b) <==> a == b,
{
    if forall|i: int| 0 <= i < 4 ==> a@[i] == b@[i] {
        assert(a@ =~= b@);
    }
    if a@ == b@ {
        assert(a.container =~= b.container);
    }
}

} // verus!
