//! Specifications of the functions of std that the decoders call and for
//! which vstd has none. Verus takes each on trust.

use vstd::prelude::*;
use vstd::string::StringSliceAdditionalSpecFns;
use vstd::utf8::{is_scalar, valid_utf8};

verus! {

/// The error of [`core::str::from_utf8`]; nothing is read from it.
#[verifier::external_type_specification]
#[verifier::external_body]
pub struct ExUtf8Error(core::str::Utf8Error);

/// [`core::str::from_utf8`] succeeds on exactly the byte slices that are
/// valid UTF-8, and the string slice it then returns has those bytes.
pub assume_specification[ core::str::from_utf8 ](v: &[u8]) -> (res: Result<
    &str,
    core::str::Utf8Error,
>)
    ensures
        res is Ok <==> valid_utf8(v@),
        res matches Ok(s) ==> s.spec_bytes() == v@,
;

/// [`char::from_u32`] returns the character with the given number where
/// that number is a Unicode scalar value, and `None` where it is not.
pub assume_specification[ char::from_u32 ](i: u32) -> (res: Option<char>)
    ensures
        is_scalar(i) ==> res == Some(i as char),
        !is_scalar(i) ==> res is None,
;

/// [`String::push`] appends the character to the end of the string.
pub assume_specification[ String::push ](s: &mut String, ch: char)
    ensures
        final(s)@ == old(s)@.push(ch),
;

} // verus!
