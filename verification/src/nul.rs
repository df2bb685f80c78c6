//! NUL characters in a command text, and the zero unit that ends a buffer.

use vstd::prelude::*;
use vstd::seq_lib::lemma_seq_concat_contains_all_elements;
use vstd::utf8::{
    encode_scalar, encode_utf8, has_width_1_encoding, last_continuation_byte,
    leading_byte_width_1, leading_byte_width_2, leading_byte_width_3, leading_byte_width_4,
    second_last_continuation_byte, third_last_continuation_byte,
};

verus! {

/// True when `text` holds a NUL character at some position.
pub open spec fn has_nul(text: Seq<char>) -> bool {
    text.contains('\0')
}

/// True when `buffer` ends with `end` and holds it nowhere else, so that a
/// reader that stops at the first `end` has read all that stands before it.
pub open spec fn ends_at_first<T>(buffer: Seq<T>, end: T) -> bool {
    &&& buffer.len() > 0
    &&& buffer.last() == end
    &&& !buffer.drop_last().contains(end)
}

/// A text holds a NUL character exactly when its first character is one or
/// the rest of it holds one.
pub proof fn lemma_has_nul_step(text: Seq<char>)
    requires
        text.len() > 0,
    ensures
        has_nul(text) <==> text[0] == '\0' || has_nul(text.drop_first()),
{
    let first = seq![text[0]];
    assert(text =~= first + text.drop_first());
    lemma_seq_concat_contains_all_elements(first, text.drop_first(), '\0');
    if first.contains('\0') {
        let i = choose|i: int| 0 <= i < first.len() && first[i] == '\0';
        assert(first[i] == text[0]);
    }
    if text[0] == '\0' {
        assert(first[0] == '\0');
    }
}

/// A sequence with a zero unit appended ends at its first zero exactly when
/// it held none before.
pub proof fn lemma_push_ends_at_first<T>(units: Seq<T>, end: T)
    ensures
        ends_at_first(units.push(end), end) <==> !units.contains(end),
{
    assert(units.push(end).drop_last() =~= units);
}

/// Of the bytes that UTF-8 builds from a scalar value, only the single byte
/// of the value zero is zero: lead bytes of longer forms and continuation
/// bytes carry a marker bit.
proof fn lemma_utf8_bytes_of_scalar(scalar: u32)
    by (bit_vector)
    ensures
        has_width_1_encoding(scalar) ==> (leading_byte_width_1(scalar) == 0u8 <==> scalar == 0u32),
        leading_byte_width_2(scalar) != 0u8,
        leading_byte_width_3(scalar) != 0u8,
        leading_byte_width_4(scalar) != 0u8,
        last_continuation_byte(scalar) != 0u8,
        second_last_continuation_byte(scalar) != 0u8,
        third_last_continuation_byte(scalar) != 0u8,
{
}

/// Only the NUL character has a zero byte in its UTF-8 encoding.
pub proof fn lemma_utf8_char_nul(c: char)
    ensures
        encode_scalar(c as u32).contains(0u8) <==> c == '\0',
{
    let scalar = c as u32;
    let bytes = encode_scalar(scalar);
    lemma_utf8_bytes_of_scalar(scalar);
    if bytes.contains(0u8) {
        let i = choose|i: int| 0 <= i < bytes.len() && bytes[i] == 0u8;
        assert(bytes[i] == 0u8);
        assert(scalar == 0);
    }
    if c == '\0' {
        assert(bytes[0] == 0u8);
    }
}

/// The UTF-8 encoding of a text holds a zero byte exactly when the text
/// holds a NUL character.
pub proof fn lemma_utf8_nul(text: Seq<char>)
    ensures
        encode_utf8(text).contains(0u8) <==> has_nul(text),
    decreases text.len(),
{
    if text.len() > 0 {
        lemma_utf8_char_nul(text[0]);
        lemma_utf8_nul(text.drop_first());
        lemma_seq_concat_contains_all_elements(
            encode_scalar(text[0] as u32),
            encode_utf8(text.drop_first()),
            0u8,
        );
        lemma_has_nul_step(text);
    }
}

/// Tells whether `command` holds a NUL character.
pub fn contains_nul(command: &str) -> (found: bool)
    ensures
        found == has_nul(command@),
{
    let bytes = command.as_bytes();
    proof {
        lemma_utf8_nul(command@);
    }
    let mut i: usize = 0;
    while i < bytes.len()
        invariant
            i <= bytes.len(),
            bytes@.contains(0u8) <==> has_nul(command@),
            forall|j: int| 0 <= j < i ==> bytes@[j] != 0u8,
        decreases bytes.len() - i,
    {
        if bytes[i] == 0 {
            return true;
        }
        i += 1;
    }
    false
}

} // verus!
