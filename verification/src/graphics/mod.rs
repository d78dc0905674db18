//! Helpers for the terminal graphics protocol.
//!
//! An image is shown by an escape sequence that carries, in Base64, the
//! path of the image file. Writing the file and printing the sequence are
//! the caller's.

use crate::graphics::base64::{base64_encode, encoding};
use vstd::prelude::*;
use vstd::string::StringSliceAdditionalSpecFns;

pub mod base64;

verus! {

pub const ANSI_GRAPHICS_PROTOCOL_ESCAPE_START: &'static str = "\x1b_G";

pub const ANSI_GRAPHICS_PROTOCOL_ESCAPE_END: &'static str = "\x1b\\";

/// The control data of the sequence: transmit and display, in PNG format.
pub const TRANSMIT_AND_DISPLAY_PNG: &'static str = "a=T,f=100;";

/// The text of the escape sequence whose payload is `payload`.
pub open spec fn image_sequence(payload: Seq<u8>) -> Seq<char> {
    ANSI_GRAPHICS_PROTOCOL_ESCAPE_START@ + TRANSMIT_AND_DISPLAY_PNG@ + encoding(payload)
        + ANSI_GRAPHICS_PROTOCOL_ESCAPE_END@
}

/// The escape sequence that makes the terminal show the PNG file at
/// `path`: the start of the sequence, the control data, the path in
/// Base64 and the end of the sequence.
pub fn image_escape_sequence(path: &str) -> (sequence: String)
    ensures
        sequence@ == image_sequence(path.spec_bytes()),
{
    let payload = base64_encode(path.as_bytes());
    let mut sequence = String::from_str(ANSI_GRAPHICS_PROTOCOL_ESCAPE_START);
    sequence.append(TRANSMIT_AND_DISPLAY_PNG);
    sequence.append(payload.as_str());
    sequence.append(ANSI_GRAPHICS_PROTOCOL_ESCAPE_END);
    sequence
}

} // verus!
