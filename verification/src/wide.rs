//! The wide calling convention: the command as UTF-16 code units, ended by a
//! zero unit.

use vstd::prelude::*;

use crate::nul::{contains_nul, ends_at_first, has_nul, lemma_push_ends_at_first};
use crate::utf16::{decode, encode, encode_utf16, lemma_decode_encode, lemma_nul};
use crate::REJECTED;

verus! {

/// The buffer that carries `text` to the platform call: its UTF-16 code
/// units and a zero unit after them.
pub open spec fn buffer(text: Seq<char>) -> Seq<u16> {
    encode(text).push(0u16)
}

/// The buffer of a text ends at its first zero unit exactly when the text
/// holds no NUL character: only then does the platform call read all of it.
pub proof fn lemma_buffer_ends_at_first_zero(text: Seq<char>)
    ensures
        ends_at_first(buffer(text), 0u16) <==> !has_nul(text),
{
    lemma_nul(text);
    lemma_push_ends_at_first(encode(text), 0u16);
}

/// What stands before the terminator decodes to the text: the buffer
/// carries every character of it, unchanged and in order.
pub proof fn lemma_buffer_carries_text(text: Seq<char>)
    ensures
        decode(buffer(text).drop_last()) == Some(text),
{
    assert(buffer(text).drop_last() =~= encode(text));
    lemma_decode_encode(text);
}

/// Builds the zero-terminated wide string for `command`, or `None` where the
/// command holds a NUL character.
pub fn wide_string(command: &str) -> (units: Option<Vec<u16>>)
    ensures
        units is None <==> has_nul(command@),
        units matches Some(u) ==> u@ == buffer(command@) && ends_at_first(u@, 0u16),
{
    if contains_nul(command) {
        return None;
    }
    let mut units = encode_utf16(command);
    units.push(0);
    proof {
        lemma_buffer_ends_at_first_zero(command@);
    }
    Some(units)
}

/// Runs `command` through `facility`, the platform's blocking call that
/// takes a zero-terminated wide string, and returns the exit code that the
/// call reports, unchanged.
///
/// A command that holds a NUL character is answered with [`REJECTED`]
/// without a call: nothing is asked of `facility` for such a command.
pub fn system<F: FnOnce(&[u16]) -> i32>(command: &str, facility: F) -> (code: i32)
    requires
        !has_nul(command@) ==> forall|units: &[u16]|
            units@ == buffer(command@) && ends_at_first(units@, 0u16) ==> facility.requires(
                (units,),
            ),
    ensures
        has_nul(command@) ==> code == REJECTED,
        !has_nul(command@) ==> exists|units: &[u16]|
            units@ == buffer(command@) && ends_at_first(units@, 0u16) && facility.ensures(
                (units,),
                code,
            ),
{
    match wide_string(command) {
        None => REJECTED,
        Some(units) => facility(units.as_slice()),
    }
}

} // verus!
