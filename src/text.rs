//! Text: the run of leading `'0'` characters.
//!
//! The scan goes over the UTF-8 bytes of the text. The digit `'0'` is one
//! byte, `0x30`, and no other character's encoding starts with that byte, so
//! the count of leading `0x30` bytes is the count of leading `'0'` characters.
use vstd::prelude::*;
use vstd::string::StringSliceAdditionalSpecFns;
use vstd::utf8::{encode_utf8, encode_scalar, char_u32_cast};
use crate::LeadingZeroCount;
use crate::buffers::ZERO_DIGIT;
use crate::model::{zero_run, lemma_zero_run_shape, lemma_zero_run_ends_at};

verus! {

/// The first byte of a character's UTF-8 encoding is `0x30` exactly when the
/// character is `'0'`, and then it is the whole encoding.
proof fn lemma_first_byte_is_digit(c: char)
    ensures
        encode_scalar(c as u32).len() >= 1,
        (encode_scalar(c as u32)[0] == ZERO_DIGIT) <==> (c == '0'),
        c == '0' ==> encode_scalar(c as u32) =~= seq![ZERO_DIGIT],
{
    let v = c as u32;
    if v <= 0x7F {
        assert(v & 0x7F == v) by (bit_vector)
            requires
                v <= 0x7F,
        ;
        if v == 0x30 {
            char_u32_cast(c, v);
            assert(c == '0');
        }
    } else if v <= 0x7FF {
        let y = ((v >> 6) & 0x1F) as u8;
        assert(0xC0u8 | y >= 0xC0u8) by (bit_vector);
        assert(c != '0');
    } else if v <= 0xFFFF {
        let y = ((v >> 12) & 0x0F) as u8;
        assert(0xE0u8 | y >= 0xE0u8) by (bit_vector);
        assert(c != '0');
    } else {
        let y = ((v >> 18) & 0x7) as u8;
        assert(0xF0u8 | y >= 0xF0u8) by (bit_vector);
        assert(c != '0');
    }
}

/// Counting leading `0x30` bytes of the encoding counts the leading `'0'`
/// characters.
pub proof fn lemma_byte_run_is_char_run(cs: Seq<char>)
    ensures
        zero_run(encode_utf8(cs), ZERO_DIGIT) == zero_run(cs, '0'),
    decreases cs.len(),
{
    let bytes = encode_utf8(cs);
    if cs.len() > 0 {
        let head = encode_scalar(cs[0] as u32);
        let tail = encode_utf8(cs.drop_first());
        lemma_first_byte_is_digit(cs[0]);
        assert(bytes[0] == head[0]);
        if cs[0] == '0' {
            assert(bytes.drop_first() =~= tail);
            lemma_byte_run_is_char_run(cs.drop_first());
        }
    }
}

/// A text takes at least one byte per character, and exactly one per
/// character when every character is `'0'`.
pub proof fn lemma_encoded_length(cs: Seq<char>)
    ensures
        encode_utf8(cs).len() >= cs.len(),
        (forall|j: int| 0 <= j < cs.len() ==> cs[j] == '0') ==> encode_utf8(cs).len() == cs.len(),
    decreases cs.len(),
{
    if cs.len() > 0 {
        lemma_first_byte_is_digit(cs[0]);
        lemma_encoded_length(cs.drop_first());
        if forall|j: int| 0 <= j < cs.len() ==> cs[j] == '0' {
            assert forall|j: int| 0 <= j < cs.drop_first().len() implies cs.drop_first()[j]
                == '0' by {
                assert(cs.drop_first()[j] == cs[j + 1]);
            }
        }
    }
}

impl LeadingZeroCount for str {
    open spec fn leading_zero_count(&self) -> nat {
        zero_run(self@, '0')
    }

    fn count_leading_zeros(&self) -> (r: usize)
        ensures
            r as nat == zero_run(self.spec_bytes(), ZERO_DIGIT),
    {
        let bytes = self.as_bytes();
        let r = bytes.count_leading_zeros();
        proof {
            lemma_byte_run_is_char_run(self@);
        }
        r
    }
}

impl LeadingZeroCount for String {
    open spec fn leading_zero_count(&self) -> nat {
        zero_run(self@, '0')
    }

    fn count_leading_zeros(&self) -> (r: usize) {
        self.as_str().count_leading_zeros()
    }
}

/// The count of a text is at most its length, in characters and in bytes,
/// and reaches its length exactly when every character is `'0'`.
pub proof fn lemma_text_count_within_length(s: &str)
    ensures
        s.leading_zero_count() <= s@.len(),
        s@.len() <= s.spec_bytes().len(),
        (s.leading_zero_count() == s@.len()) <==> (forall|j: int| 0 <= j < s@.len() ==> s@[j] == '0'),
        (s.leading_zero_count() == s.spec_bytes().len()) <==> (forall|j: int|
            0 <= j < s@.len() ==> s@[j] == '0'),
{
    lemma_zero_run_shape(s@, '0');
    lemma_encoded_length(s@);
    if forall|j: int| 0 <= j < s@.len() ==> s@[j] == '0' {
        lemma_zero_run_ends_at(s@, '0', s@.len() as int);
    }
}

/// The count of a text is zero exactly when the text is empty or does not
/// start with `'0'`.
pub proof fn lemma_text_count_zero(s: &str)
    ensures
        (s.leading_zero_count() == 0) <==> (s@.len() == 0 || s@[0] != '0'),
{
}

} // verus!
