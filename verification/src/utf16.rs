//! UTF-16: the code units of a text, and the text of a sequence of code units.

use vstd::prelude::*;
use vstd::seq_lib::lemma_seq_concat_contains_all_elements;
use vstd::std_specs::iter::IteratorSpec;

use crate::nul::{has_nul, lemma_has_nul_step};

verus! {

/// First code point outside the Basic Multilingual Plane.
pub const SUPPLEMENTARY_START: u32 = 0x1_0000;

/// Lowest high (leading) surrogate.
pub const HIGH_SURROGATE_START: u16 = 0xD800;

/// Lowest low (trailing) surrogate.
pub const LOW_SURROGATE_START: u16 = 0xDC00;

/// Highest surrogate.
pub const SURROGATE_END: u16 = 0xDFFF;

/// Number of code points that share one high surrogate.
pub const SURROGATE_SPAN: u32 = 0x400;

/// True when `unit` is a high surrogate, the first half of a pair.
pub open spec fn is_high_surrogate(unit: u16) -> bool {
    HIGH_SURROGATE_START <= unit < LOW_SURROGATE_START
}

/// True when `unit` is a low surrogate, the second half of a pair.
pub open spec fn is_low_surrogate(unit: u16) -> bool {
    LOW_SURROGATE_START <= unit <= SURROGATE_END
}

/// True when `c` takes a single code unit.
pub open spec fn is_single_unit(c: char) -> bool {
    (c as u32) < SUPPLEMENTARY_START
}

/// The high surrogate of a character beyond the Basic Multilingual Plane.
pub open spec fn high_surrogate(c: char) -> u16
    recommends
        !is_single_unit(c),
{
    (HIGH_SURROGATE_START + (c as u32 - SUPPLEMENTARY_START) / (SURROGATE_SPAN as int)) as u16
}

/// The low surrogate of a character beyond the Basic Multilingual Plane.
pub open spec fn low_surrogate(c: char) -> u16
    recommends
        !is_single_unit(c),
{
    (LOW_SURROGATE_START + (c as u32 - SUPPLEMENTARY_START) % (SURROGATE_SPAN as int)) as u16
}

/// The code units of one character: itself, or a surrogate pair.
pub open spec fn encode_char(c: char) -> Seq<u16> {
    if is_single_unit(c) {
        seq![c as u16]
    } else {
        seq![high_surrogate(c), low_surrogate(c)]
    }
}

/// The code units of a text: those of its characters, in order.
pub open spec fn encode(text: Seq<char>) -> Seq<u16>
    decreases text.len(),
{
    if text.len() == 0 {
        seq![]
    } else {
        encode_char(text[0]) + encode(text.drop_first())
    }
}

/// The code point that a surrogate pair stands for.
pub open spec fn pair_code_point(high: u16, low: u16) -> int
    recommends
        is_high_surrogate(high),
        is_low_surrogate(low),
{
    SUPPLEMENTARY_START + (high - HIGH_SURROGATE_START) * SURROGATE_SPAN + (low
        - LOW_SURROGATE_START)
}

/// The text that `units` encode, or `None` where a surrogate stands unpaired.
pub open spec fn decode(units: Seq<u16>) -> Option<Seq<char>>
    decreases units.len(),
{
    if units.len() == 0 {
        Some(seq![])
    } else if is_high_surrogate(units[0]) {
        if units.len() >= 2 && is_low_surrogate(units[1]) {
            match decode(units.skip(2)) {
                Some(rest) => Some(seq![pair_code_point(units[0], units[1]) as char] + rest),
                None => None,
            }
        } else {
            None
        }
    } else if is_low_surrogate(units[0]) {
        None
    } else {
        match decode(units.skip(1)) {
            Some(rest) => Some(seq![units[0] as char] + rest),
            None => None,
        }
    }
}

/// A character is a code point up to U+10FFFF that is no surrogate.
pub proof fn lemma_char_range(c: char)
    ensures
        0 <= c as int <= 0x10_FFFF,
        !(HIGH_SURROGATE_START <= c as int <= SURROGATE_END),
{
}

/// Decoding the code units of a text yields that text: no character is lost
/// or changed on the way through UTF-16.
pub proof fn lemma_decode_encode(text: Seq<char>)
    ensures
        decode(encode(text)) == Some(text),
    decreases text.len(),
{
    if text.len() == 0 {
        assert(text =~= seq![]);
    } else {
        let c = text[0];
        let rest = text.drop_first();
        let units = encode(text);
        lemma_decode_encode(rest);
        lemma_char_range(c);
        assert(units == encode_char(c) + encode(rest));
        if is_single_unit(c) {
            let unit = c as u16;
            assert(encode_char(c) == seq![unit]);
            assert(units[0] == unit);
            assert(units.skip(1) =~= encode(rest));
            assert(unit as char == c);
        } else {
            let offset = c as u32 - SUPPLEMENTARY_START;
            let high = high_surrogate(c);
            let low = low_surrogate(c);
            assert(encode_char(c) == seq![high, low]);
            assert(units[0] == high && units[1] == low);
            assert(units.skip(2) =~= encode(rest));
            assert(high == HIGH_SURROGATE_START + offset / (SURROGATE_SPAN as int));
            assert(low == LOW_SURROGATE_START + offset % (SURROGATE_SPAN as int));
            assert(pair_code_point(high, low) == c as u32);
        }
        assert(text =~= seq![c] + rest);
    }
}

/// Only the NUL character has a zero unit among its code units.
pub proof fn lemma_char_nul(c: char)
    ensures
        encode_char(c).contains(0u16) <==> c == '\0',
{
    lemma_char_range(c);
    let units = encode_char(c);
    if units.contains(0u16) {
        let i = choose|i: int| 0 <= i < units.len() && units[i] == 0u16;
        assert(units[i] == 0u16);
        if !is_single_unit(c) {
            let offset = c as u32 - SUPPLEMENTARY_START;
            assert(0 <= offset / (SURROGATE_SPAN as int) < SURROGATE_SPAN);
        }
    }
    if c == '\0' {
        assert(units[0] == 0u16);
    }
}

/// The code units of a text hold a zero unit exactly when the text holds a
/// NUL character.
pub proof fn lemma_nul(text: Seq<char>)
    ensures
        encode(text).contains(0u16) <==> has_nul(text),
    decreases text.len(),
{
    if text.len() > 0 {
        lemma_char_nul(text[0]);
        lemma_nul(text.drop_first());
        lemma_seq_concat_contains_all_elements(encode_char(text[0]), encode(text.drop_first()), 0u16);
        lemma_has_nul_step(text);
    }
}

/// The UTF-16 code units of `text`.
pub fn encode_utf16(text: &str) -> (units: Vec<u16>)
    ensures
        units@ == encode(text@),
{
    broadcast use vstd::string::group_string_axioms;

    let mut units: Vec<u16> = Vec::new();
    let mut chars = text.chars();
    loop
        invariant
            units@ + encode(chars.remaining()) == encode(text@),
            chars.decrease() is Some,
        ensures
            units@ == encode(text@),
        decreases chars.decrease()->0,
    {
        match chars.next() {
            Some(c) => {
                proof {
                    lemma_char_range(c);
                }
                let code: u32 = c as u32;
                if code < SUPPLEMENTARY_START {
                    units.push(code as u16);
                } else {
                    let offset: u32 = code - SUPPLEMENTARY_START;
                    units.push(HIGH_SURROGATE_START + (offset / SURROGATE_SPAN) as u16);
                    units.push(LOW_SURROGATE_START + (offset % SURROGATE_SPAN) as u16);
                }
            },
            None => {
                break ;
            },
        }
    }
    units
}

} // verus!
