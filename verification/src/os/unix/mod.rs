//! The POSIX side: a byte stream with escape sequences.

pub mod input;
