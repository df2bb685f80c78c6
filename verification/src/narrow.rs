//! The narrow calling convention: the command as UTF-8 bytes, ended by a
//! zero byte.

use vstd::prelude::*;
use vstd::string::StrSliceExecFns;
use vstd::utf8::{decode_utf8, encode_utf8, encode_utf8_decode_utf8};

use crate::nul::{contains_nul, ends_at_first, has_nul, lemma_push_ends_at_first, lemma_utf8_nul};
use crate::REJECTED;

verus! {

/// The buffer that carries `text` to the platform call: its UTF-8 bytes and
/// a zero byte after them.
pub open spec fn buffer(text: Seq<char>) -> Seq<u8> {
    encode_utf8(text).push(0u8)
}

/// The buffer of a text ends at its first zero byte exactly when the text
/// holds no NUL character: only then does the platform call read all of it.
pub proof fn lemma_buffer_ends_at_first_zero(text: Seq<char>)
    ensures
        ends_at_first(buffer(text), 0u8) <==> !has_nul(text),
{
    lemma_utf8_nul(text);
    lemma_push_ends_at_first(encode_utf8(text), 0u8);
}

/// What stands before the terminator decodes to the text: the buffer
/// carries every character of it, unchanged and in order.
pub proof fn lemma_buffer_carries_text(text: Seq<char>)
    ensures
        decode_utf8(buffer(text).drop_last()) == text,
{
    assert(buffer(text).drop_last() =~= encode_utf8(text));
    encode_utf8_decode_utf8(text);
}

/// Builds the zero-terminated byte string for `command`, or `None` where the
/// command holds a NUL character.
pub fn c_string(command: &str) -> (bytes: Option<Vec<u8>>)
    ensures
        bytes is None <==> has_nul(command@),
        bytes matches Some(b) ==> b@ == buffer(command@) && ends_at_first(b@, 0u8),
{
    if contains_nul(command) {
        return None;
    }
    let mut bytes = command.as_bytes_vec();
    bytes.push(0);
    proof {
        lemma_buffer_ends_at_first_zero(command@);
    }
    Some(bytes)
}

/// Runs `command` through `facility`, the platform's blocking call that
/// takes a zero-terminated byte string, and returns the exit code that the
/// call reports, unchanged.
///
/// A command that holds a NUL character is answered with [`REJECTED`]
/// without a call: nothing is asked of `facility` for such a command.
pub fn system<F: FnOnce(&[u8]) -> i32>(command: &str, facility: F) -> (code: i32)
    requires
        !has_nul(command@) ==> forall|bytes: &[u8]|
            bytes@ == buffer(command@) && ends_at_first(bytes@, 0u8) ==> facility.requires(
                (bytes,),
            ),
    ensures
        has_nul(command@) ==> code == REJECTED,
        !has_nul(command@) ==> exists|bytes: &[u8]|
            bytes@ == buffer(command@) && ends_at_first(bytes@, 0u8) && facility.ensures(
                (bytes,),
                code,
            ),
{
    match c_string(command) {
        None => REJECTED,
        Some(bytes) => facility(bytes.as_slice()),
    }
}

} // verus!
