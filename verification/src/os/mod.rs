//! The two platform decoders.

pub mod keystroke;
pub mod unix;
pub mod windows;
