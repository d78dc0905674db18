//! Decoding of raw terminal input into platform-independent events.
//!
//! [`os::unix::input`] turns the byte stream of a POSIX terminal into
//! [`input::Event`]s; [`os::windows::input`] does the same for the records
//! of the Windows console. Both are stated against the same event model and
//! pull their input, unit by unit, from an iterator ([`source`]).

pub mod graphics;
pub mod input;
pub mod os;
pub mod source;
pub mod std_specs;
