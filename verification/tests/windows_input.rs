use neutuino::input::{Event, InputError, Key, KeyModifiers, KeyState};
use neutuino::os::unix::input::try_parse_event;
use neutuino::os::windows::input::{
    decode_record, parse_key_event, poll_input, wait_timeout, FocusEventRecord, InputRecord,
    KeyEventRecord,
};
use neutuino::os::windows::{disable_raw_mode, enable_ansi, enable_raw_mode};

fn key(key: Key, modifiers: KeyModifiers) -> Event {
    Event::KeyInput { key, modifiers, state: KeyState::Pressed }
}

fn plain(k: Key) -> Event {
    key(k, KeyModifiers::NONE())
}

fn record(virtual_key_code: u16, unicode_char: u16, control_key_state: u32) -> KeyEventRecord {
    KeyEventRecord {
        key_down: 1,
        repeat_count: 1,
        virtual_key_code,
        virtual_scan_code: 0,
        unicode_char,
        control_key_state,
    }
}

const RIGHT_CTRL: u32 = 0x0004;
const LEFT_CTRL: u32 = 0x0008;
const SHIFT: u32 = 0x0010;
const LEFT_ALT: u32 = 0x0002;
const CAPS_LOCK: u32 = 0x0080;

#[test]
fn virtual_key_table() {
    let table = [
        (0x08, Key::Backspace),
        (0x09, Key::Tab),
        (0x0d, Key::Char('\n')),
        (0x1b, Key::Escape),
        (0x21, Key::PageUp),
        (0x22, Key::PageDown),
        (0x23, Key::End),
        (0x24, Key::Home),
        (0x25, Key::Left),
        (0x26, Key::Up),
        (0x27, Key::Right),
        (0x28, Key::Down),
        (0x2d, Key::Insert),
        (0x2e, Key::Delete),
    ];
    for (code, k) in table {
        assert_eq!(parse_key_event(&record(code, 0, 0)), plain(k));
        assert_eq!(parse_key_event(&record(code, b'a' as u16, LEFT_CTRL | LEFT_ALT)), plain(k));
    }
}

#[test]
fn function_keys_are_a_contiguous_range() {
    assert_eq!(parse_key_event(&record(0x70, 0, 0)), plain(Key::F(1)));
    assert_eq!(parse_key_event(&record(0x7b, 0, 0)), plain(Key::F(12)));
    assert_eq!(parse_key_event(&record(0x87, 0, 0)), plain(Key::F(24)));
    for n in 0u16..24 {
        assert_eq!(parse_key_event(&record(0x70 + n, 0, SHIFT)), plain(Key::F(n as u8 + 1)));
    }
    assert_eq!(parse_key_event(&record(0x6f, b'/' as u16, 0)), plain(Key::Char('/')));
    assert_eq!(parse_key_event(&record(0x88, 0, 0)), plain(Key::Char('\0')));
}

#[test]
fn tab_with_shift_is_shift_tab() {
    assert_eq!(parse_key_event(&record(0x09, 9, SHIFT)), key(Key::Tab, KeyModifiers::SHIFT()));
    assert_eq!(
        parse_key_event(&record(0x09, 9, SHIFT | LEFT_CTRL)),
        key(Key::Tab, KeyModifiers::SHIFT())
    );
    assert_eq!(parse_key_event(&record(0x09, 9, LEFT_CTRL | CAPS_LOCK)), plain(Key::Tab));
}

#[test]
fn unmapped_codes_fall_through_to_the_character() {
    assert_eq!(parse_key_event(&record(0x41, b'a' as u16, 0)), plain(Key::Char('a')));
    assert_eq!(parse_key_event(&record(0x41, b'A' as u16, SHIFT)), plain(Key::Char('A')));
    assert_eq!(parse_key_event(&record(0x00, 0x20ac, 0)), plain(Key::Char('€')));
    assert_eq!(parse_key_event(&record(0x00, 0xe9, LEFT_ALT)), plain(Key::Char('é')));
    assert_eq!(parse_key_event(&record(0x00, 0xffff, 0)), plain(Key::Char('\u{ffff}')));
}

#[test]
fn ctrl_applies_to_ascii_letters_only() {
    assert_eq!(
        parse_key_event(&record(0x41, b'a' as u16, LEFT_CTRL)),
        key(Key::Char('a'), KeyModifiers::CTRL())
    );
    assert_eq!(
        parse_key_event(&record(0x5a, b'Z' as u16, RIGHT_CTRL | SHIFT)),
        key(Key::Char('Z'), KeyModifiers::CTRL())
    );
    assert_eq!(
        parse_key_event(&record(0x41, b'z' as u16, LEFT_CTRL | RIGHT_CTRL)),
        key(Key::Char('z'), KeyModifiers::CTRL())
    );
    assert_eq!(parse_key_event(&record(0x31, b'1' as u16, LEFT_CTRL)), plain(Key::Char('1')));
    assert_eq!(parse_key_event(&record(0x41, 0x01, LEFT_CTRL)), plain(Key::Char('\x01')));
    assert_eq!(parse_key_event(&record(0x00, 0xe9, RIGHT_CTRL)), plain(Key::Char('é')));
    assert_eq!(parse_key_event(&record(0xdb, b'[' as u16, LEFT_CTRL)), plain(Key::Char('[')));
    assert_eq!(parse_key_event(&record(0xc0, b'`' as u16, LEFT_CTRL)), plain(Key::Char('`')));
    assert_eq!(parse_key_event(&record(0x00, b'@' as u16, LEFT_CTRL)), plain(Key::Char('@')));
    assert_eq!(parse_key_event(&record(0x00, b'{' as u16, LEFT_CTRL)), plain(Key::Char('{')));
    assert_eq!(parse_key_event(&record(0x41, b'a' as u16, LEFT_ALT)), plain(Key::Char('a')));
}

#[test]
fn half_a_surrogate_pair_becomes_a_space() {
    assert_eq!(parse_key_event(&record(0x00, 0xd800, 0)), plain(Key::Char(' ')));
    assert_eq!(parse_key_event(&record(0x00, 0xdbff, 0)), plain(Key::Char(' ')));
    assert_eq!(parse_key_event(&record(0x00, 0xdfff, LEFT_CTRL)), plain(Key::Char(' ')));
    assert_eq!(parse_key_event(&record(0x00, 0xd7ff, 0)), plain(Key::Char('\u{d7ff}')));
    assert_eq!(parse_key_event(&record(0x00, 0xe000, 0)), plain(Key::Char('\u{e000}')));
}

#[test]
fn only_a_key_going_down_is_an_event() {
    let down = record(0x26, 0, 0);
    assert_eq!(decode_record(&InputRecord::Key(down)), Ok(plain(Key::Up)));
    let up = KeyEventRecord { key_down: 0, ..down };
    assert_eq!(decode_record(&InputRecord::Key(up)), Err(InputError::ParseFailure));
    let odd = KeyEventRecord { key_down: -1, ..down };
    assert_eq!(decode_record(&InputRecord::Key(odd)), Ok(plain(Key::Up)));
    assert_eq!(
        decode_record(&InputRecord::Focus(FocusEventRecord { set_focus: 1 })),
        Err(InputError::InvalidData)
    );
    assert_eq!(
        decode_record(&InputRecord::Focus(FocusEventRecord { set_focus: 0 })),
        Err(InputError::InvalidData)
    );
    assert_eq!(decode_record(&InputRecord::Other(0x02)), Err(InputError::InvalidData));
    assert_eq!(decode_record(&InputRecord::Other(0x04)), Err(InputError::InvalidData));
}

#[test]
fn records_are_told_apart_by_their_tag() {
    let k = record(0x26, 0, 0);
    let f = FocusEventRecord { set_focus: 1 };
    assert_eq!(InputRecord::from_native(0x0001, k, f), InputRecord::Key(k));
    assert_eq!(InputRecord::from_native(0x0010, k, f), InputRecord::Focus(f));
    assert_eq!(InputRecord::from_native(0x0002, k, f), InputRecord::Other(0x0002));
    assert_eq!(InputRecord::from_native(0x0008, k, f), InputRecord::Other(0x0008));
    assert_eq!(InputRecord::from_native(0, k, f), InputRecord::Other(0));
    assert_eq!(InputRecord::from_native(0x0011, k, f), InputRecord::Other(0x0011));
}

#[test]
fn poll_without_input_times_out_without_a_read() {
    assert_eq!(wait_timeout(0), 0);
    let mut records = vec![Ok(InputRecord::Key(record(0x26, 0, 0)))].into_iter();
    assert_eq!(poll_input(0x102, 0, &mut records), Err(InputError::Timeout));
    assert_eq!(records.len(), 1);
    assert_eq!(poll_input(0x102, 6, &mut records), Err(InputError::Timeout));
    assert_eq!(poll_input(0x80, 0, &mut records), Err(InputError::Timeout));
    assert_eq!(poll_input(1, 5, &mut records), Err(InputError::Timeout));
    assert_eq!(records.len(), 1);
}

#[test]
fn failed_wait_carries_the_native_code() {
    let mut records = vec![Ok(InputRecord::Key(record(0x26, 0, 0)))].into_iter();
    assert_eq!(poll_input(0xffff_ffff, 6, &mut records), Err(InputError::Os(6)));
    assert_eq!(records.len(), 1);
    assert_eq!(poll_input(0xffff_ffff, 0, &mut records), Err(InputError::Os(0)));
    assert_eq!(poll_input(0xffff_ffff, -3, &mut records), Err(InputError::Os(-3)));
    assert_eq!(records.len(), 1);
    assert_eq!(poll_input(0, 6, &mut records), Ok(plain(Key::Up)));
    assert_eq!(records.len(), 0);
}

#[test]
fn poll_with_input_decodes_one_record() {
    let mut records = vec![
        Ok(InputRecord::Key(record(0x26, 0, 0))),
        Ok(InputRecord::Focus(FocusEventRecord { set_focus: 1 })),
        Err(InputError::Os(6)),
        Ok(InputRecord::Key(record(0x41, b'q' as u16, 0))),
    ]
    .into_iter();
    assert_eq!(poll_input(0, 0, &mut records), Ok(plain(Key::Up)));
    assert_eq!(records.len(), 3);
    assert_eq!(poll_input(0, 0, &mut records), Err(InputError::InvalidData));
    assert_eq!(poll_input(0, 0, &mut records), Err(InputError::Os(6)));
    assert_eq!(poll_input(0, 9, &mut records), Ok(plain(Key::Char('q'))));
    assert_eq!(poll_input(0, 0, &mut records), Err(InputError::Timeout));
}

#[test]
fn wait_timeout_keeps_the_low_32_bits() {
    assert_eq!(wait_timeout(1500), 1500);
    assert_eq!(wait_timeout(0xffff_ffff), u32::MAX);
    assert_eq!(wait_timeout(0x1_0000_0000), 0);
    assert_eq!(wait_timeout(0x1_0000_0007), 7);
    assert_eq!(wait_timeout(u128::MAX), u32::MAX);
}

fn posix(bytes: &[u8]) -> Result<Event, InputError> {
    let mut rest = bytes[1..].iter().map(|b| Ok(*b));
    let res = try_parse_event(bytes[0], &mut rest);
    assert_eq!(rest.next(), None);
    res
}

fn console(virtual_key_code: u16, unicode_char: u16, control_key_state: u32) -> Result<Event, InputError> {
    decode_record(&InputRecord::Key(record(virtual_key_code, unicode_char, control_key_state)))
}

#[test]
fn both_platforms_give_the_same_event_for_the_same_key() {
    assert_eq!(posix(b"\x1b[A"), Ok(plain(Key::Up)));
    assert_eq!(console(0x26, 0, 0), Ok(plain(Key::Up)));

    assert_eq!(posix(b"\x1b[A"), console(0x26, 0, 0));
    assert_eq!(posix(b"\x1b[B"), console(0x28, 0, 0));
    assert_eq!(posix(b"\x1b[C"), console(0x27, 0, CAPS_LOCK));
    assert_eq!(posix(b"\x1b[D"), console(0x25, 0, LEFT_CTRL));
    assert_eq!(posix(b"\x1b[H"), console(0x24, 0, 0));
    assert_eq!(posix(b"\x1b[F"), console(0x23, 0, 0));
    assert_eq!(posix(b"\t"), console(0x09, 9, 0));
    assert_eq!(posix(b"\x1b[Z"), console(0x09, 9, SHIFT));
    assert_eq!(posix(b"\x7f"), console(0x08, 8, 0));
    assert_eq!(posix(b"\r"), console(0x0d, 13, 0));
    for n in 0u8..24 {
        assert_eq!(posix(&[0x1b, b'O', b'P' + n]), console(0x70 + n as u16, 0, 0));
    }
    for n in 0u8..5 {
        assert_eq!(posix(&[0x1b, b'[', b'[', b'A' + n]), console(0x70 + n as u16, 0, 0));
    }
    for c in "a Z~é€\u{ffff}".chars() {
        let mut buf = [0u8; 4];
        assert_eq!(posix(c.encode_utf8(&mut buf).as_bytes()), console(0, c as u16, SHIFT));
    }
}

#[test]
fn raw_mode_clears_the_cooked_input_flags() {
    assert_eq!(enable_raw_mode(0), 0);
    assert_eq!(enable_raw_mode(0x7), 0);
    assert_eq!(enable_raw_mode(0x1f7), 0x1f0);
    assert_eq!(enable_raw_mode(0x1f1), 0x1f0);
    assert_eq!(enable_raw_mode(u32::MAX), 0xffff_fff8);
    assert_eq!(enable_raw_mode(0x0208), 0x0208);
}

#[test]
fn leaving_raw_mode_sets_the_cooked_input_flags() {
    assert_eq!(disable_raw_mode(0), 0x7);
    assert_eq!(disable_raw_mode(0x1f0), 0x1f7);
    assert_eq!(disable_raw_mode(0x1f2), 0x1f7);
    assert_eq!(disable_raw_mode(u32::MAX), u32::MAX);
    assert_eq!(disable_raw_mode(enable_raw_mode(0x1f5)), 0x1f7);
    assert_eq!(enable_raw_mode(disable_raw_mode(0x1f0)), 0x1f0);
}

#[test]
fn ansi_sets_virtual_terminal_processing() {
    assert_eq!(enable_ansi(0), 0x4);
    assert_eq!(enable_ansi(0x3), 0x7);
    assert_eq!(enable_ansi(0x4), 0x4);
    assert_eq!(enable_ansi(0xfff0), 0xfff4);
    assert_eq!(enable_ansi(enable_ansi(0x11)), 0x15);
}
