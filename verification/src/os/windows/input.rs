//! The console record decoder of the Windows side.
//!
//! The console hands out native input records, one per read. A record is
//! modelled here by the plain values that the decoder reads from it.
//! [`decode_record`] maps one record to one event or one error;
//! [`parse_key_event`] is the part that maps a key record by its virtual-key
//! code and its control-key state.
//!
//! Of the control-key state only the Ctrl and Shift bits are decoded. Alt,
//! Meta, Super and the lock keys are never reported on this side.

use crate::input::{Event, InputError, Key, KeyModifiers, KeyState, Modifier};
use crate::source::{rest_after, Decoded};
use vstd::prelude::*;
use vstd::std_specs::iter::IteratorSpec;

verus! {

/// The key part of a native input record.
#[derive(Debug, Copy, Clone, PartialEq, Eq, Hash, Structural)]
pub struct KeyEventRecord {
    /// Not zero when the key went down, zero when it was released.
    pub key_down: i32,
    pub repeat_count: u16,
    pub virtual_key_code: u16,
    pub virtual_scan_code: u16,
    /// The UTF-16 code unit of the character, 0 where the key has none.
    pub unicode_char: u16,
    /// Bit mask of the modifier and lock keys that were held.
    pub control_key_state: u32,
}

/// The focus part of a native input record.
#[derive(Debug, Copy, Clone, PartialEq, Eq, Hash, Structural)]
pub struct FocusEventRecord {
    pub set_focus: i32,
}

/// One native input record, by its kind.
#[derive(Debug, Copy, Clone, PartialEq, Eq, Hash, Structural)]
pub enum InputRecord {
    Key(KeyEventRecord),
    Focus(FocusEventRecord),
    /// A record of any other kind, with its native type tag.
    Other(u16),
}

/* Native type tags of a record */

pub const KEY_EVENT: u16 = 0x0001;

pub const FOCUS_EVENT: u16 = 0x0010;

/* What the wait on the console returns */

/// Input is ready.
pub const WAIT_OBJECT_0: u32 = 0;

/// The wait itself failed.
pub const WAIT_FAILED: u32 = 0xffff_ffff;

/* Bits of the control-key state */

pub const RIGHT_CTRL_PRESSED: u32 = 0x0004;

pub const LEFT_CTRL_PRESSED: u32 = 0x0008;

pub const SHIFT_PRESSED: u32 = 0x0010;

/* Virtual-key codes */

pub const VK_BACK: u16 = 0x08;

pub const VK_TAB: u16 = 0x09;

pub const VK_RETURN: u16 = 0x0d;

pub const VK_ESCAPE: u16 = 0x1b;

pub const VK_PRIOR: u16 = 0x21;

pub const VK_NEXT: u16 = 0x22;

pub const VK_END: u16 = 0x23;

pub const VK_HOME: u16 = 0x24;

pub const VK_LEFT: u16 = 0x25;

pub const VK_UP: u16 = 0x26;

pub const VK_RIGHT: u16 = 0x27;

pub const VK_DOWN: u16 = 0x28;

pub const VK_INSERT: u16 = 0x2d;

pub const VK_DELETE: u16 = 0x2e;

pub const VK_F1: u16 = 0x70;

pub const VK_F24: u16 = 0x87;

/* The decoder, as spec functions */

/// Whether either Ctrl key was held.
pub open spec fn ctrl_held(control_key_state: u32) -> bool {
    control_key_state & (LEFT_CTRL_PRESSED | RIGHT_CTRL_PRESSED) != 0
}

/// Whether a Shift key was held.
pub open spec fn shift_held(control_key_state: u32) -> bool {
    control_key_state & SHIFT_PRESSED != 0
}

/// The character of a record's character field: the one with the number
/// of the code unit, or a space where the unit is half of a surrogate pair
/// and so no character by itself.
pub open spec fn native_char(unit: u16) -> char {
    if 0xd800 <= unit <= 0xdfff {
        ' '
    } else {
        unit as char
    }
}

/// Whether `c` is one of the letters `a` to `z` and `A` to `Z`.
pub open spec fn is_ascii_letter(c: char) -> bool {
    ('a' <= c <= 'z') || ('A' <= c <= 'Z')
}

/// The key that a virtual-key code is mapped to by the table, if any.
pub open spec fn mapped_key(code: u16, shift: bool) -> Option<(Key, Set<Modifier>)> {
    if code == VK_BACK {
        Some((Key::Backspace, Set::empty()))
    } else if code == VK_TAB {
        if shift {
            Some((Key::Tab, set![Modifier::Shift]))
        } else {
            Some((Key::Tab, Set::empty()))
        }
    } else if code == VK_RETURN {
        Some((Key::Char('\n'), Set::empty()))
    } else if code == VK_ESCAPE {
        Some((Key::Escape, Set::empty()))
    } else if code == VK_PRIOR {
        Some((Key::PageUp, Set::empty()))
    } else if code == VK_NEXT {
        Some((Key::PageDown, Set::empty()))
    } else if code == VK_END {
        Some((Key::End, Set::empty()))
    } else if code == VK_HOME {
        Some((Key::Home, Set::empty()))
    } else if code == VK_LEFT {
        Some((Key::Left, Set::empty()))
    } else if code == VK_UP {
        Some((Key::Up, Set::empty()))
    } else if code == VK_RIGHT {
        Some((Key::Right, Set::empty()))
    } else if code == VK_DOWN {
        Some((Key::Down, Set::empty()))
    } else if code == VK_INSERT {
        Some((Key::Insert, Set::empty()))
    } else if code == VK_DELETE {
        Some((Key::Delete, Set::empty()))
    } else if VK_F1 <= code <= VK_F24 {
        Some((Key::F((code - VK_F1 + 1) as u8), Set::empty()))
    } else {
        None
    }
}

/// The event of a key record: the key of the table where the code is
/// mapped, else the character of the record, with Ctrl where Ctrl was held
/// and the character is an ASCII letter.
pub open spec fn key_event(record: KeyEventRecord) -> Event {
    match mapped_key(record.virtual_key_code, shift_held(record.control_key_state)) {
        Some((key, held)) => Event::pressed(key, held),
        None => {
            let c = native_char(record.unicode_char);
            if ctrl_held(record.control_key_state) && is_ascii_letter(c) {
                Event::pressed(Key::Char(c), set![Modifier::Ctrl])
            } else {
                Event::pressed(Key::Char(c), Set::empty())
            }
        },
    }
}

/// The event or error of a record: only a key that went down is an event.
/// A release is rejected as a parse failure; a focus record, and a record
/// of any other kind, as invalid data.
pub open spec fn record_event(record: InputRecord) -> Result<Event, InputError> {
    match record {
        InputRecord::Focus(_) => Err(InputError::InvalidData),
        InputRecord::Key(key) => if key.key_down == 0 {
            Err(InputError::ParseFailure)
        } else {
            Ok(key_event(key))
        },
        InputRecord::Other(_) => Err(InputError::InvalidData),
    }
}

/// What a poll comes to, from what the wait on the console returned
/// (`wait_result`: `WAIT_OBJECT_0` when input is ready, `WAIT_FAILED` when
/// the wait failed, anything else when the time ran out), the error code
/// that the platform holds after the wait, and the records pending in the
/// source. A source that has nothing to give after all counts as a
/// timeout.
pub open spec fn polled(
    wait_result: u32,
    os_error: i32,
    pending: Seq<Result<InputRecord, InputError>>,
) -> Decoded<Event> {
    if wait_result == WAIT_FAILED {
        Decoded { result: Err(InputError::Os(os_error)), pulls: 0 }
    } else if wait_result != WAIT_OBJECT_0 {
        Decoded { result: Err(InputError::Timeout), pulls: 0 }
    } else if pending.len() == 0 {
        Decoded { result: Err(InputError::Timeout), pulls: 1 }
    } else {
        match pending[0] {
            Err(e) => Decoded { result: Err(e), pulls: 1 },
            Ok(record) => Decoded { result: record_event(record), pulls: 1 },
        }
    }
}

/// The time to wait as the wait primitive takes it: the milliseconds, cut
/// to the 32 bits of its argument.
pub open spec fn wait_millis(millis: u128) -> int {
    (millis % 0x1_0000_0000) as int
}

impl InputRecord {
    /// The record with the native type tag `event_type`, given what its key
    /// part and its focus part hold.
    pub open spec fn of_native(
        event_type: u16,
        key: KeyEventRecord,
        focus: FocusEventRecord,
    ) -> InputRecord {
        if event_type == FOCUS_EVENT {
            InputRecord::Focus(focus)
        } else if event_type == KEY_EVENT {
            InputRecord::Key(key)
        } else {
            InputRecord::Other(event_type)
        }
    }

    /// Tells the kinds of record apart by the native type tag.
    pub fn from_native(event_type: u16, key: KeyEventRecord, focus: FocusEventRecord) -> (record:
        InputRecord)
        ensures
            record == Self::of_native(event_type, key, focus),
    {
        if event_type == FOCUS_EVENT {
            InputRecord::Focus(focus)
        } else if event_type == KEY_EVENT {
            InputRecord::Key(key)
        } else {
            InputRecord::Other(event_type)
        }
    }
}

/* The decoder */

fn press(key: Key, modifiers: KeyModifiers) -> (ev: Event)
    ensures
        ev == (Event::KeyInput { key, modifiers, state: KeyState::Pressed }),
{
    Event::KeyInput { key, modifiers, state: KeyState::Pressed }
}

/// Maps a key record to its event.
pub fn parse_key_event(event: &KeyEventRecord) -> (ev: Event)
    ensures
        ev == key_event(*event),
        ev.is_press(),
{
    let ctrl = event.control_key_state & (LEFT_CTRL_PRESSED | RIGHT_CTRL_PRESSED) != 0;
    let shift = event.control_key_state & SHIFT_PRESSED != 0;
    let code = event.virtual_key_code;

    if code == VK_BACK {
        press(Key::Backspace, KeyModifiers::NONE())
    } else if code == VK_TAB {
        if shift {
            press(Key::Tab, KeyModifiers::SHIFT())
        } else {
            press(Key::Tab, KeyModifiers::NONE())
        }
    } else if code == VK_RETURN {
        press(Key::Char('\n'), KeyModifiers::NONE())
    } else if code == VK_ESCAPE {
        press(Key::Escape, KeyModifiers::NONE())
    } else if code == VK_PRIOR {
        press(Key::PageUp, KeyModifiers::NONE())
    } else if code == VK_NEXT {
        press(Key::PageDown, KeyModifiers::NONE())
    } else if code == VK_END {
        press(Key::End, KeyModifiers::NONE())
    } else if code == VK_HOME {
        press(Key::Home, KeyModifiers::NONE())
    } else if code == VK_LEFT {
        press(Key::Left, KeyModifiers::NONE())
    } else if code == VK_UP {
        press(Key::Up, KeyModifiers::NONE())
    } else if code == VK_RIGHT {
        press(Key::Right, KeyModifiers::NONE())
    } else if code == VK_DOWN {
        press(Key::Down, KeyModifiers::NONE())
    } else if code == VK_INSERT {
        press(Key::Insert, KeyModifiers::NONE())
    } else if code == VK_DELETE {
        press(Key::Delete, KeyModifiers::NONE())
    } else if VK_F1 <= code && code <= VK_F24 {
        press(Key::F((code - VK_F1 + 1) as u8), KeyModifiers::NONE())
    } else {
        let c = match char::from_u32(event.unicode_char as u32) {
            Some(c) => c,
            None => ' ',
        };
        if ctrl && (('a' <= c && c <= 'z') || ('A' <= c && c <= 'Z')) {
            press(Key::Char(c), KeyModifiers::CTRL())
        } else {
            press(Key::Char(c), KeyModifiers::NONE())
        }
    }
}

/// Decodes one native record into one event or one error.
pub fn decode_record(record: &InputRecord) -> (res: Result<Event, InputError>)
    ensures
        res == record_event(*record),
        res matches Ok(ev) ==> ev.is_press(),
{
    match record {
        InputRecord::Focus(_) => Err(InputError::InvalidData),
        InputRecord::Key(key) => {
            if key.key_down == 0 {
                Err(InputError::ParseFailure)
            } else {
                Ok(parse_key_event(key))
            }
        },
        InputRecord::Other(_) => Err(InputError::InvalidData),
    }
}

/// The argument for the wait primitive that stands for a timeout of
/// `millis` milliseconds. Zero stays zero: check, do not block.
pub fn wait_timeout(millis: u128) -> (timeout: u32)
    ensures
        timeout == wait_millis(millis),
        millis == 0 ==> timeout == 0,
{
    let timeout = #[verifier::truncate] (millis as u32);
    assert(timeout == millis % 0x1_0000_0000) by (bit_vector)
        requires
            timeout == millis as u32,
    ;
    timeout
}

/// Resolves one poll, once the wait on the console has returned.
///
/// `wait_result` is what the wait returned, `os_error` the error code that
/// the platform holds after it, and `records` the record source. When the
/// wait failed the result is the native error code; when the time ran
/// out it is `Timeout`; in both cases nothing is pulled from `records`.
/// When input is ready, one record is pulled and decoded.
pub fn poll_input<I: Iterator<Item = Result<InputRecord, InputError>>>(
    wait_result: u32,
    os_error: i32,
    records: &mut I,
) -> (res: Result<Event, InputError>)
    ensures
        (*old(records)).obeys_prophetic_iter_laws() ==> {
            let decoded = polled(wait_result, os_error, (*old(records)).remaining());
            &&& (*final(records)).obeys_prophetic_iter_laws()
            &&& res == decoded.result
            &&& (*final(records)).remaining() == rest_after(
                (*old(records)).remaining(),
                decoded.pulls,
            )
        },
        wait_result == WAIT_FAILED ==> {
            &&& res == Err::<Event, InputError>(InputError::Os(os_error))
            &&& *final(records) == *old(records)
        },
        wait_result != WAIT_OBJECT_0 && wait_result != WAIT_FAILED ==> {
            &&& res == Err::<Event, InputError>(InputError::Timeout)
            &&& *final(records) == *old(records)
        },
        res matches Ok(ev) ==> ev.is_press(),
{
    proof {
        assert(rest_after((*old(records)).remaining(), 0) =~= (*old(records)).remaining());
    }
    if wait_result == WAIT_FAILED {
        return Err(InputError::Os(os_error));
    }
    if wait_result != WAIT_OBJECT_0 {
        return Err(InputError::Timeout);
    }
    match records.next() {
        None => Err(InputError::Timeout),
        Some(Err(e)) => Err(e),
        Some(Ok(record)) => decode_record(&record),
    }
}

} // verus!
