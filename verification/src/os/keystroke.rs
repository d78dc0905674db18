//! What the two platform decoders have in common.
//!
//! The same keystroke reaches the two decoders in different wire forms: a
//! byte sequence on the POSIX side, a native record on the Windows side.
//! [`Keystroke`] names the keystrokes that have both forms, and
//! [`lemma_platforms_agree`] states that the two decoders turn them into
//! the same event.

use crate::input::{Event, InputError};
use crate::os::unix::input::{
    delivered, event, lemma_char_round_trip, CR, DEL, ESC, HT, LEFT_BRACKET, UPPER_A, UPPER_B,
    UPPER_C, UPPER_D, UPPER_F, UPPER_H, UPPER_O, UPPER_P, UPPER_Z,
};
use crate::os::windows::input::{
    ctrl_held, is_ascii_letter, mapped_key, record_event, shift_held, InputRecord, KeyEventRecord,
    VK_BACK, VK_DOWN, VK_END, VK_F1, VK_HOME, VK_LEFT, VK_RETURN, VK_RIGHT, VK_TAB, VK_UP,
};
use vstd::prelude::*;
use vstd::utf8::encode_scalar;

verus! {

/// A keystroke that both platforms report.
pub enum Keystroke {
    Up,
    Down,
    Left,
    Right,
    Home,
    End,
    Tab,
    /// Shift+Tab
    BackTab,
    Backspace,
    Enter,
    /// A function key, by its number from 1.
    Function(u8),
    /// A character key.
    Char(char),
}

impl Keystroke {
    /// The keystrokes that have a wire form on both sides: the function
    /// keys up to F24, and the characters that fit the character field of a
    /// record and are no control characters.
    pub open spec fn on_both_platforms(self) -> bool {
        match self {
            Keystroke::Function(n) => 1 <= n <= 24,
            Keystroke::Char(c) => 0x20 <= c as u32 <= 0xffff && c as u32 != 0x7f,
            _ => true,
        }
    }

    /// The bytes that a POSIX terminal sends for the keystroke.
    pub open spec fn posix_bytes(self) -> Seq<u8> {
        match self {
            Keystroke::Up => seq![ESC, LEFT_BRACKET, UPPER_A],
            Keystroke::Down => seq![ESC, LEFT_BRACKET, UPPER_B],
            Keystroke::Right => seq![ESC, LEFT_BRACKET, UPPER_C],
            Keystroke::Left => seq![ESC, LEFT_BRACKET, UPPER_D],
            Keystroke::Home => seq![ESC, LEFT_BRACKET, UPPER_H],
            Keystroke::End => seq![ESC, LEFT_BRACKET, UPPER_F],
            Keystroke::Tab => seq![HT],
            Keystroke::BackTab => seq![ESC, LEFT_BRACKET, UPPER_Z],
            Keystroke::Backspace => seq![DEL],
            Keystroke::Enter => seq![CR],
            Keystroke::Function(n) => seq![ESC, UPPER_O, (UPPER_P + n - 1) as u8],
            Keystroke::Char(c) => encode_scalar(c as u32),
        }
    }

    /// Whether `record` is a record that the console hands out for the
    /// keystroke. The fields that are not named are free.
    pub open spec fn is_console_record(self, record: KeyEventRecord) -> bool {
        let code = record.virtual_key_code;
        let shift = shift_held(record.control_key_state);
        match self {
            Keystroke::Up => code == VK_UP,
            Keystroke::Down => code == VK_DOWN,
            Keystroke::Right => code == VK_RIGHT,
            Keystroke::Left => code == VK_LEFT,
            Keystroke::Home => code == VK_HOME,
            Keystroke::End => code == VK_END,
            Keystroke::Tab => code == VK_TAB && !shift,
            Keystroke::BackTab => code == VK_TAB && shift,
            Keystroke::Backspace => code == VK_BACK,
            Keystroke::Enter => code == VK_RETURN,
            Keystroke::Function(n) => code == VK_F1 + n - 1,
            Keystroke::Char(c) => {
                &&& mapped_key(code, shift) is None
                &&& record.unicode_char == c as u32
                &&& !(ctrl_held(record.control_key_state) && is_ascii_letter(c))
            },
        }
    }
}

/// The two platform decoders give the same event for the same keystroke:
/// what the POSIX decoder makes of the bytes of a keystroke, whatever
/// follows them, is what the console decoder makes of a record of that
/// keystroke going down.
pub proof fn lemma_platforms_agree(
    key: Keystroke,
    record: KeyEventRecord,
    tail: Seq<Result<u8, InputError>>,
)
    requires
        key.on_both_platforms(),
        key.is_console_record(record),
        record.key_down != 0,
    ensures
        ({
            let bytes = key.posix_bytes();
            let decoded = event(bytes[0], delivered(bytes.skip(1)) + tail);
            &&& decoded.result is Ok
            &&& decoded.result == record_event(InputRecord::Key(record))
            &&& decoded.pulls == bytes.len() - 1
        }),
{
    let bytes = key.posix_bytes();
    let pending = delivered(bytes.skip(1)) + tail;
    match key {
        Keystroke::Char(c) => {
            lemma_char_round_trip(c, tail);
        },
        Keystroke::Tab | Keystroke::Backspace | Keystroke::Enter => {},
        _ => {
            assert(bytes.len() == 3);
            assert(pending[0] == Ok::<u8, InputError>(bytes[1]));
            assert(pending[1] == Ok::<u8, InputError>(bytes[2]));
            assert(pending.skip(1)[0] == pending[1]);
        },
    }
}

} // verus!
