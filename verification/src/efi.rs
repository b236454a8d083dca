//! The calls that the library makes into the `uefi` crate.
//!
//! Both functions are trusted: Verus takes their contracts on faith and does
//! not look at their bodies.

use vstd::prelude::*;

verus! {

/// Whether a raw UEFI status code reports success: only the code 0 does.
/// Warnings and errors are failures alike.
pub open spec fn is_success(status: usize) -> bool {
    status == 0
}

/// Calls `uefi::Status::is_success` on the status with the raw code `status`.
///
/// Trusted: the method compares the status with `Status::SUCCESS`, whose raw
/// code is 0, so the answer is `true` exactly for the code 0.
#[verifier::external_body]
pub(crate) fn status_is_success(status: usize) -> (ok: bool)
    ensures
        ok == is_success(status),
{
    uefi::Status(status).is_success()
}

/// Wraps `byte` with `uefi::Char8::from` and converts the Latin-1 character
/// to a `char` with `char::from`.
///
/// Trusted: a `Char8` holds the byte unchanged, and its conversion to `char`
/// yields the character whose code point is the byte's value.
#[verifier::external_body]
pub(crate) fn latin1_char(byte: u8) -> (c: char)
    ensures
        c == byte as char,
{
    char::from(uefi::Char8::from(byte))
}

} // verus!
