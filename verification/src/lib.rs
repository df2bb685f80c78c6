//! Running a shell command through the platform's command interpreter.
//!
//! The platform call takes a buffer of code units that ends at its first zero
//! unit: bytes on POSIX-like systems ([`narrow`]), UTF-16 code units on
//! Windows ([`wide`]). This crate builds that buffer from a command text,
//! refuses a text that the buffer could not carry whole, and hands the
//! platform's exit code back untouched.

use vstd::prelude::*;

pub mod narrow;
pub mod nul;
pub mod utf16;
pub mod wide;

verus! {

/// Exit code reported for a command that is never handed to the shell.
pub const REJECTED: i32 = -1;

} // verus!
