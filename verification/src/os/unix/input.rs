//! The escape sequence decoder of the POSIX side.
//!
//! Given the first byte of a burst of input and an iterator over the bytes
//! that follow, [`try_parse_event`] resolves exactly one event or one error.
//! It classifies control bytes, UTF-8 sequences and ANSI escape sequences,
//! and pulls exactly as many further bytes as it needs to resolve or reject
//! the sequence; it never hands a byte back.
//!
//! The grammar is written down once, as spec functions over the first byte
//! and the items still pending in the source ([`event`] and the functions
//! it is made of). Every executable decoder is tied to its spec function,
//! and the laws of the grammar are proved of the spec functions.

use crate::input::{Event, InputError, Key, KeyModifiers, KeyState, Modifier};
use crate::source::{item_at, lemma_rest_after_twice, next_item, rest_after, Decoded};
use vstd::prelude::*;
use vstd::std_specs::iter::IteratorSpec;
use vstd::string::StringSliceAdditionalSpecFns;
use vstd::utf8::{decode_utf8, encode_scalar, valid_utf8};

verus! {

/* The ASCII bytes that the grammar names */

/// `NUL`
pub const NUL: u8 = 0x00;

/// Horizontal tab
pub const HT: u8 = 0x09;

/// Line feed
pub const LF: u8 = 0x0a;

/// Carriage return
pub const CR: u8 = 0x0d;

/// The escape byte, which opens every ANSI sequence.
pub const ESC: u8 = 0x1b;

/// The last of the control bytes
pub const US: u8 = 0x1f;

/// `DEL`
pub const DEL: u8 = 0x7f;

/// `A`
pub const UPPER_A: u8 = 0x41;

/// `B`
pub const UPPER_B: u8 = 0x42;

/// `C`
pub const UPPER_C: u8 = 0x43;

/// `D`
pub const UPPER_D: u8 = 0x44;

/// `E`
pub const UPPER_E: u8 = 0x45;

/// `F`
pub const UPPER_F: u8 = 0x46;

/// `H`
pub const UPPER_H: u8 = 0x48;

/// `O`, which after `ESC` opens an SS3 sequence
pub const UPPER_O: u8 = 0x4f;

/// `P`
pub const UPPER_P: u8 = 0x50;

/// `Z`
pub const UPPER_Z: u8 = 0x5a;

/// `[`, which after `ESC` opens a CSI sequence
pub const LEFT_BRACKET: u8 = 0x5b;

/// `s`
pub const LOWER_S: u8 = 0x73;

/// What is added to a control byte to get the letter it is typed with.
pub const CTRL_LETTER_OFFSET: u8 = 96;

/// The largest number of bytes a UTF-8 sequence is given to become valid.
pub const MAX_UTF8_WIDTH: usize = 4;

/* The grammar */

/// The event for the byte that ends a CSI sequence (`ESC [` and this byte):
/// the arrow keys, Home, End and Shift+Tab.
pub open spec fn csi_final(b: u8) -> Option<Event> {
    if b == UPPER_D {
        Some(Event::pressed(Key::Left, Set::empty()))
    } else if b == UPPER_C {
        Some(Event::pressed(Key::Right, Set::empty()))
    } else if b == UPPER_A {
        Some(Event::pressed(Key::Up, Set::empty()))
    } else if b == UPPER_B {
        Some(Event::pressed(Key::Down, Set::empty()))
    } else if b == UPPER_H {
        Some(Event::pressed(Key::Home, Set::empty()))
    } else if b == UPPER_F {
        Some(Event::pressed(Key::End, Set::empty()))
    } else if b == UPPER_Z {
        Some(Event::pressed(Key::Tab, set![Modifier::Shift]))
    } else {
        None
    }
}

/// The function key for the byte that ends the legacy console encoding
/// (`ESC [ [` and this byte): `A` to `E` are F1 to F5.
pub open spec fn console_function_final(b: u8) -> Option<Event> {
    if UPPER_A <= b <= UPPER_E {
        Some(Event::pressed(Key::F((1 + b - UPPER_A) as u8), Set::empty()))
    } else {
        None
    }
}

/// The function key for the byte that ends an SS3 sequence (`ESC O` and
/// this byte): `P` is F1, and so on up to `s`.
pub open spec fn ss3_final(b: u8) -> Option<Event> {
    if UPPER_P <= b <= LOWER_S {
        Some(Event::pressed(Key::F((1 + b - UPPER_P) as u8), Set::empty()))
    } else {
        None
    }
}

/// The CSI sub-decoder, entered after `ESC [`. `Ok(None)` says that the
/// bytes match no key.
pub open spec fn csi_sequence(pending: Seq<Result<u8, InputError>>) -> Decoded<Option<Event>> {
    match item_at(pending, 0) {
        Err(e) => Decoded { result: Err(e), pulls: 1 },
        Ok(b) => if b == LEFT_BRACKET {
            match item_at(pending, 1) {
                Err(e) => Decoded { result: Err(e), pulls: 2 },
                Ok(v) => Decoded { result: Ok(console_function_final(v)), pulls: 2 },
            }
        } else {
            Decoded { result: Ok(csi_final(b)), pulls: 1 }
        },
    }
}

/// An event that was looked up, or the parse failure that its absence
/// means.
pub open spec fn matched(found: Option<Event>) -> Result<Event, InputError> {
    match found {
        Some(ev) => Ok(ev),
        None => Err(InputError::ParseFailure),
    }
}

/// The ANSI sub-decoder, entered after `ESC`.
pub open spec fn ansi_sequence(pending: Seq<Result<u8, InputError>>) -> Decoded<Event> {
    match item_at(pending, 0) {
        Err(e) => Decoded { result: Err(e), pulls: 1 },
        Ok(b) => if b == UPPER_O {
            match item_at(pending, 1) {
                Err(e) => Decoded { result: Err(e), pulls: 2 },
                Ok(v) => Decoded { result: matched(ss3_final(v)), pulls: 2 },
            }
        } else if b == LEFT_BRACKET {
            let inner = csi_sequence(pending.skip(1));
            Decoded {
                result: match inner.result {
                    Ok(found) => matched(found),
                    Err(e) => Err(e),
                },
                pulls: inner.pulls + 1,
            }
        } else {
            Decoded { result: Err(InputError::ParseFailure), pulls: 1 }
        },
    }
}

/// The UTF-8 path from a buffer that holds `buf` so far: the buffer is
/// tried after each byte, grows by one pull at a time, and is given up once
/// it holds four bytes that still are no valid UTF-8.
pub open spec fn utf8_from(buf: Seq<u8>, pending: Seq<Result<u8, InputError>>) -> Decoded<char>
    decreases MAX_UTF8_WIDTH - buf.len(),
{
    if buf.len() == 0 {
        Decoded { result: Err(InputError::InvalidData), pulls: 0 }
    } else if valid_utf8(buf) {
        Decoded { result: Ok(decode_utf8(buf)[0]), pulls: (buf.len() - 1) as nat }
    } else if buf.len() >= MAX_UTF8_WIDTH {
        Decoded { result: Err(InputError::InvalidData), pulls: (buf.len() - 1) as nat }
    } else {
        match item_at(pending, buf.len() - 1) {
            Err(e) => Decoded { result: Err(e), pulls: buf.len() },
            Ok(b) => utf8_from(buf.push(b), pending),
        }
    }
}

/// The UTF-8 path for a character that starts with the byte `c`.
pub open spec fn utf8_char(c: u8, pending: Seq<Result<u8, InputError>>) -> Decoded<char> {
    utf8_from(seq![c], pending)
}

/// The event for a byte that resolves by itself: the control bytes other
/// than `ESC`, and DEL.
pub open spec fn control_byte(item: u8) -> Option<Event> {
    if item == LF {
        Some(Event::pressed(Key::Char('j'), set![Modifier::Ctrl]))
    } else if item == CR {
        Some(Event::pressed(Key::Char('\n'), Set::empty()))
    } else if item == HT {
        Some(Event::pressed(Key::Tab, Set::empty()))
    } else if item == DEL {
        Some(Event::pressed(Key::Backspace, Set::empty()))
    } else if item == NUL {
        Some(Event::pressed(Key::Null, Set::empty()))
    } else if item <= US && item != ESC {
        Some(Event::pressed(Key::Char((item + CTRL_LETTER_OFFSET) as char), set![Modifier::Ctrl]))
    } else {
        None
    }
}

/// The whole decoder: the event or error for the first byte `item` and the
/// items `pending` behind it.
pub open spec fn event(item: u8, pending: Seq<Result<u8, InputError>>) -> Decoded<Event> {
    if item == ESC {
        ansi_sequence(pending)
    } else {
        match control_byte(item) {
            Some(ev) => Decoded { result: Ok(ev), pulls: 0 },
            None => {
                let inner = utf8_char(item, pending);
                Decoded {
                    result: match inner.result {
                        Ok(ch) => Ok(Event::pressed(Key::Char(ch), Set::empty())),
                        Err(e) => Err(e),
                    },
                    pulls: inner.pulls,
                }
            },
        }
    }
}

/// The event of a byte below `0x80` other than `ESC`. Such a byte resolves
/// by itself: a control byte by the table, any other as the character with
/// its number.
pub open spec fn lone_byte(item: u8) -> Event {
    match control_byte(item) {
        Some(ev) => ev,
        None => Event::pressed(Key::Char(item as char), Set::empty()),
    }
}

/// What a poll comes to once the wait has reported input: the first byte is
/// pulled and decoded with what is behind it. A source that has nothing to
/// give after all counts as a timeout.
pub open spec fn first_event(pending: Seq<Result<u8, InputError>>) -> Decoded<Event> {
    if pending.len() == 0 {
        Decoded { result: Err(InputError::Timeout), pulls: 1 }
    } else {
        match pending[0] {
            Err(e) => Decoded { result: Err(e), pulls: 1 },
            Ok(item) => {
                let inner = event(item, pending.skip(1));
                Decoded { result: inner.result, pulls: inner.pulls + 1 }
            },
        }
    }
}

/// What a poll comes to, from what the wait returned (`ready`: the number
/// of descriptors with input, 0 when the time ran out, negative on
/// failure), the error code that the platform then holds, and the items
/// pending in the source.
pub open spec fn polled(ready: i32, os_error: i32, pending: Seq<Result<u8, InputError>>) -> Decoded<
    Event,
> {
    if ready > 0 {
        first_event(pending)
    } else if ready == 0 {
        Decoded { result: Err(InputError::Timeout), pulls: 0 }
    } else {
        Decoded { result: Err(InputError::Os(os_error)), pulls: 0 }
    }
}

/// The item that one read of a single byte comes to, from what the read
/// returned (the number of bytes, 0 at the end of the stream, negative on
/// failure), the byte in the buffer and the error code that the platform
/// then holds. `None` is the end of the stream.
pub open spec fn read_outcome(bytes_read: isize, byte: u8, os_error: i32) -> Option<
    Result<u8, InputError>,
> {
    if bytes_read > 0 {
        Some(Ok(byte))
    } else if bytes_read == 0 {
        None
    } else {
        Some(Err(InputError::Os(os_error)))
    }
}

/// The time to wait as the wait primitive takes it: the milliseconds, cut
/// to the 32 bits of its signed argument.
pub open spec fn wait_millis(millis: u128) -> int {
    let low = millis % 0x1_0000_0000;
    if low < 0x8000_0000 {
        low as int
    } else {
        low - 0x1_0000_0000
    }
}

/// The key event of `key` going down with no modifier held.
fn plain(key: Key) -> (ev: Event)
    ensures
        ev == Event::pressed(key, Set::empty()),
{
    Event::KeyInput { key, modifiers: KeyModifiers::NONE(), state: KeyState::Pressed }
}

/// Looks up the byte that ends a CSI sequence.
pub fn csi_key(b: u8) -> (found: Option<Event>)
    ensures
        found == csi_final(b),
{
    if b == UPPER_D {
        Some(plain(Key::Left))
    } else if b == UPPER_C {
        Some(plain(Key::Right))
    } else if b == UPPER_A {
        Some(plain(Key::Up))
    } else if b == UPPER_B {
        Some(plain(Key::Down))
    } else if b == UPPER_H {
        Some(plain(Key::Home))
    } else if b == UPPER_F {
        Some(plain(Key::End))
    } else if b == UPPER_Z {
        Some(
            Event::KeyInput {
                key: Key::Tab,
                modifiers: KeyModifiers::SHIFT(),
                state: KeyState::Pressed,
            },
        )
    } else {
        None
    }
}

/// Looks up the byte that ends the legacy console encoding of a function
/// key.
pub fn console_function_key(b: u8) -> (found: Option<Event>)
    ensures
        found == console_function_final(b),
{
    if UPPER_A <= b && b <= UPPER_E {
        Some(plain(Key::F(1 + (b - UPPER_A))))
    } else {
        None
    }
}

/// Looks up the byte that ends an SS3 sequence.
pub fn ss3_key(b: u8) -> (found: Option<Event>)
    ensures
        found == ss3_final(b),
{
    if UPPER_P <= b && b <= LOWER_S {
        Some(plain(Key::F(1 + (b - UPPER_P))))
    } else {
        None
    }
}

/// Looks up a byte that resolves by itself.
pub fn control_key(item: u8) -> (found: Option<Event>)
    ensures
        found == control_byte(item),
{
    if item == LF {
        Some(
            Event::KeyInput {
                key: Key::Char('j'),
                modifiers: KeyModifiers::CTRL(),
                state: KeyState::Pressed,
            },
        )
    } else if item == CR {
        Some(plain(Key::Char('\n')))
    } else if item == HT {
        Some(plain(Key::Tab))
    } else if item == DEL {
        Some(plain(Key::Backspace))
    } else if item == NUL {
        Some(plain(Key::Null))
    } else if item <= US && item != ESC {
        Some(
            Event::KeyInput {
                key: Key::Char((item + CTRL_LETTER_OFFSET) as char),
                modifiers: KeyModifiers::CTRL(),
                state: KeyState::Pressed,
            },
        )
    } else {
        None
    }
}

/// Decodes what follows `ESC [`.
///
/// `Ok(None)` says that the bytes match no key. An error is the end of the
/// stream (`UnexpectedEof`) or the failure that a pull reported.
pub fn try_parse_csi_sequence<I: Iterator<Item = Result<u8, InputError>>>(iter: &mut I) -> (res:
    Result<Option<Event>, InputError>)
    ensures
        (*old(iter)).obeys_prophetic_iter_laws() ==> {
            let decoded = csi_sequence((*old(iter)).remaining());
            &&& (*final(iter)).obeys_prophetic_iter_laws()
            &&& res == decoded.result
            &&& (*final(iter)).remaining() == rest_after((*old(iter)).remaining(), decoded.pulls)
        },
        res matches Ok(Some(ev)) ==> ev.is_press(),
{
    let ghost pending = (*old(iter)).remaining();
    match next_item(iter) {
        Err(e) => Err(e),
        Ok(b) => {
            if b == LEFT_BRACKET {
                proof {
                    lemma_rest_after_twice(pending, 1, 1);
                }
                match next_item(iter) {
                    Err(e) => Err(e),
                    Ok(v) => Ok(console_function_key(v)),
                }
            } else {
                Ok(csi_key(b))
            }
        },
    }
}

/// Decodes what follows `ESC`: an SS3 function key, or a CSI sequence.
pub fn try_parse_ansi_sequence<I: Iterator<Item = Result<u8, InputError>>>(iter: &mut I) -> (res:
    Result<Event, InputError>)
    ensures
        (*old(iter)).obeys_prophetic_iter_laws() ==> {
            let decoded = ansi_sequence((*old(iter)).remaining());
            &&& (*final(iter)).obeys_prophetic_iter_laws()
            &&& res == decoded.result
            &&& (*final(iter)).remaining() == rest_after((*old(iter)).remaining(), decoded.pulls)
        },
        res matches Ok(ev) ==> ev.is_press(),
{
    let ghost pending = (*old(iter)).remaining();
    match next_item(iter) {
        Err(e) => Err(e),
        Ok(b) => {
            if b == UPPER_O {
                proof {
                    lemma_rest_after_twice(pending, 1, 1);
                }
                match next_item(iter) {
                    Err(e) => Err(e),
                    Ok(v) => match ss3_key(v) {
                        Some(ev) => Ok(ev),
                        None => Err(InputError::ParseFailure),
                    },
                }
            } else if b == LEFT_BRACKET {
                proof {
                    lemma_rest_after_twice(pending, 1, csi_sequence(pending.skip(1)).pulls);
                }
                match try_parse_csi_sequence(iter) {
                    Err(e) => Err(e),
                    Ok(Some(ev)) => Ok(ev),
                    Ok(None) => Err(InputError::ParseFailure),
                }
            } else {
                Err(InputError::ParseFailure)
            }
        },
    }
}

/// Decodes the character that starts with the byte `c`, pulling the bytes
/// that continue it.
///
/// The buffer is tried after each byte. It is given at most four bytes:
/// when four bytes are no valid UTF-8 the result is `InvalidData`.
pub fn parse_utf8_char<I: Iterator<Item = Result<u8, InputError>>>(c: u8, iter: &mut I) -> (res:
    Result<char, InputError>)
    ensures
        (*old(iter)).obeys_prophetic_iter_laws() ==> {
            let decoded = utf8_char(c, (*old(iter)).remaining());
            &&& (*final(iter)).obeys_prophetic_iter_laws()
            &&& res == decoded.result
            &&& (*final(iter)).remaining() == rest_after((*old(iter)).remaining(), decoded.pulls)
        },
        c < 0x80 ==> res == Ok::<char, InputError>(c as char) && *final(iter) == *old(iter),
{
    let ghost pending = (*old(iter)).remaining();
    let mut bytes: Vec<u8> = Vec::new();
    bytes.push(c);
    loop
        invariant
            1 <= bytes.len() <= MAX_UTF8_WIDTH,
            bytes@[0] == c,
            pending == (*old(iter)).remaining(),
            bytes.len() == 1 ==> *iter == *old(iter),
            c < 0x80 ==> bytes.len() == 1,
            (*old(iter)).obeys_prophetic_iter_laws() ==> {
                &&& (*iter).obeys_prophetic_iter_laws()
                &&& (*iter).remaining() == rest_after(pending, (bytes.len() - 1) as nat)
                &&& utf8_from(bytes@, pending) == utf8_char(c, pending)
            },
        decreases MAX_UTF8_WIDTH - bytes.len(),
    {
        match core::str::from_utf8(bytes.as_slice()) {
            Ok(s) => {
                proof {
                    lemma_decoded_text(bytes@, s@);
                    if c < 0x80 {
                        lemma_ascii_is_itself(bytes@);
                    }
                }
                return Ok(s.get_char(0));
            },
            Err(_) => {},
        }
        proof {
            if c < 0x80 {
                lemma_ascii_is_itself(bytes@);
            }
        }
        if bytes.len() >= MAX_UTF8_WIDTH {
            return Err(InputError::InvalidData);
        }
        proof {
            lemma_rest_after_twice(pending, (bytes.len() - 1) as nat, 1);
        }
        match next_item(iter) {
            Err(e) => {
                return Err(e);
            },
            Ok(b) => {
                bytes.push(b);
            },
        }
    }
}

/// The text of a non-empty valid UTF-8 buffer is what the buffer decodes
/// to, and it is not empty.
proof fn lemma_decoded_text(buf: Seq<u8>, text: Seq<char>)
    requires
        buf.len() > 0,
        vstd::utf8::encode_utf8(text) == buf,
    ensures
        text.len() > 0,
        text == decode_utf8(buf),
{
    vstd::utf8::encode_utf8_decode_utf8(text);
}

/// One byte below `0x80` is valid UTF-8 and decodes to the character with
/// its number.
pub proof fn lemma_ascii_is_itself(buf: Seq<u8>)
    requires
        buf.len() == 1,
        buf[0] < 0x80,
    ensures
        valid_utf8(buf),
        decode_utf8(buf) == seq![buf[0] as char],
{
    let b = buf[0];
    assert(b & 0x7f == b) by (bit_vector)
        requires
            b < 0x80,
    ;
    reveal_with_fuel(valid_utf8, 2);
    reveal_with_fuel(decode_utf8, 2);
    assert(vstd::utf8::pop_first_scalar(buf) =~= Seq::<u8>::empty());
    assert(decode_utf8(buf) =~= seq![buf[0] as char]);
}

/// Decodes one event from the first byte `item` and the bytes that `iter`
/// hands out behind it.
///
/// Where `iter` keeps the iterator laws, the result and the number of bytes
/// taken from it are those of [`event`]. A byte below `0x80` other than
/// `ESC` resolves without a pull, whatever `iter` is.
pub fn try_parse_event<I: Iterator<Item = Result<u8, InputError>>>(item: u8, iter: &mut I) -> (res:
    Result<Event, InputError>)
    ensures
        (*old(iter)).obeys_prophetic_iter_laws() ==> {
            let decoded = event(item, (*old(iter)).remaining());
            &&& (*final(iter)).obeys_prophetic_iter_laws()
            &&& res == decoded.result
            &&& (*final(iter)).remaining() == rest_after((*old(iter)).remaining(), decoded.pulls)
        },
        item < 0x80 && item != ESC ==> {
            &&& res == Ok::<Event, InputError>(lone_byte(item))
            &&& *final(iter) == *old(iter)
        },
        res matches Ok(ev) ==> ev.is_press(),
{
    if item == ESC {
        return try_parse_ansi_sequence(iter);
    }
    match control_key(item) {
        Some(ev) => {
            proof {
                assert(rest_after((*old(iter)).remaining(), 0) =~= (*old(iter)).remaining());
            }
            Ok(ev)
        },
        None => match parse_utf8_char(item, iter) {
            Ok(ch) => Ok(plain(Key::Char(ch))),
            Err(e) => Err(e),
        },
    }
}

/// Turns what one read of a single byte returned into the item that the
/// byte source hands out.
pub fn read_item(bytes_read: isize, byte: u8, os_error: i32) -> (item: Option<
    Result<u8, InputError>,
>)
    ensures
        item == read_outcome(bytes_read, byte, os_error),
{
    if bytes_read > 0 {
        Some(Ok(byte))
    } else if bytes_read == 0 {
        None
    } else {
        Some(Err(InputError::Os(os_error)))
    }
}

/// The argument for the wait primitive that stands for a timeout of
/// `millis` milliseconds. Zero stays zero: check, do not block.
pub fn poll_timeout(millis: u128) -> (timeout: i32)
    ensures
        timeout == wait_millis(millis),
        millis == 0 ==> timeout == 0,
{
    let timeout = #[verifier::truncate] (millis as i32);
    assert(timeout == wait_millis(millis)) by {
        let low = millis % 0x1_0000_0000;
        assert(low < 0x8000_0000 ==> (millis as i32) == low) by (bit_vector)
            requires
                low == millis % 0x1_0000_0000,
        ;
        assert(low >= 0x8000_0000 ==> (millis as i32) == low - 0x1_0000_0000) by (bit_vector)
            requires
                low == millis % 0x1_0000_0000,
        ;
    }
    timeout
}

/// Resolves one poll, once the wait primitive has returned.
///
/// `ready` is what the wait returned, `os_error` the error code that the
/// platform holds after it, and `iter` the byte source. When the time ran
/// out, or the wait failed, nothing is pulled from `iter`: a poll with a
/// timeout of zero and no input pending returns `Timeout` without a read.
/// When input is ready, the first byte is pulled and decoded.
pub fn poll_input<I: Iterator<Item = Result<u8, InputError>>>(
    ready: i32,
    os_error: i32,
    iter: &mut I,
) -> (res: Result<Event, InputError>)
    ensures
        (*old(iter)).obeys_prophetic_iter_laws() ==> {
            let decoded = polled(ready, os_error, (*old(iter)).remaining());
            &&& (*final(iter)).obeys_prophetic_iter_laws()
            &&& res == decoded.result
            &&& (*final(iter)).remaining() == rest_after((*old(iter)).remaining(), decoded.pulls)
        },
        ready == 0 ==> {
            &&& res == Err::<Event, InputError>(InputError::Timeout)
            &&& *final(iter) == *old(iter)
        },
        ready < 0 ==> {
            &&& res == Err::<Event, InputError>(InputError::Os(os_error))
            &&& *final(iter) == *old(iter)
        },
        res matches Ok(ev) ==> ev.is_press(),
{
    let ghost pending = (*old(iter)).remaining();
    proof {
        assert(rest_after(pending, 0) =~= pending);
    }
    if ready > 0 {
        match iter.next() {
            None => Err(InputError::Timeout),
            Some(Err(e)) => Err(e),
            Some(Ok(item)) => {
                proof {
                    lemma_rest_after_twice(pending, 1, event(item, pending.skip(1)).pulls);
                }
                try_parse_event(item, iter)
            },
        }
    } else if ready == 0 {
        Err(InputError::Timeout)
    } else {
        Err(InputError::Os(os_error))
    }
}

/* The laws of the grammar */

/// Bytes as the items of a source that delivers them without failure.
pub open spec fn delivered(bytes: Seq<u8>) -> Seq<Result<u8, InputError>> {
    bytes.map_values(|b: u8| Ok::<u8, InputError>(b))
}

/// The bytes that a decoder has taken once it has made `n` pulls that all
/// gave a byte.
pub open spec fn taken(pending: Seq<Result<u8, InputError>>, n: nat) -> Seq<u8> {
    Seq::new(n, |i: int| pending[i]->Ok_0)
}

/// A byte below `0x80` other than `ESC` is decoded by itself, whatever is
/// pending behind it: no pull is made.
pub proof fn lemma_lone_byte(item: u8, pending: Seq<Result<u8, InputError>>)
    requires
        item < 0x80,
        item != ESC,
    ensures
        event(item, pending) == (Decoded { result: Ok(lone_byte(item)), pulls: 0 }),
{
    lemma_ascii_is_itself(seq![item]);
}

/// Every printable ASCII byte, `0x20` to `0x7e`, decodes to the character
/// with its number, with no modifier, pressed.
pub proof fn lemma_printable_ascii(item: u8, pending: Seq<Result<u8, InputError>>)
    requires
        0x20 <= item <= 0x7e,
    ensures
        event(item, pending) == (Decoded {
            result: Ok(Event::pressed(Key::Char(item as char), Set::empty())),
            pulls: 0,
        }),
{
    lemma_lone_byte(item, pending);
}

/// The control bytes `0x01` to `0x1a`, but for tab, line feed and carriage
/// return, decode to Ctrl with the lower-case letter that is 96 above the
/// byte: `0x01` is Ctrl+a, `0x1a` is Ctrl+z.
pub proof fn lemma_ctrl_letter(item: u8, pending: Seq<Result<u8, InputError>>)
    requires
        0x01 <= item <= 0x1a,
        item != HT,
        item != LF,
        item != CR,
    ensures
        event(item, pending) == (Decoded {
            result: Ok(Event::pressed(Key::Char((item + 96) as char), set![Modifier::Ctrl])),
            pulls: 0,
        }),
        'a' <= ((item + 96) as char) <= 'z',
{
}

/// What is decoded is a key going down: the byte stream carries no
/// releases. And no sequence takes more than three pulls.
pub proof fn lemma_event_is_press(item: u8, pending: Seq<Result<u8, InputError>>)
    ensures
        event(item, pending).result matches Ok(ev) ==> ev.is_press(),
        event(item, pending).pulls <= 3,
{
    lemma_utf8_from_pulls(seq![item], pending);
}

/// The UTF-8 path makes at most three pulls, and none that it does not
/// need: it stops at the first buffer that is valid.
proof fn lemma_utf8_from_pulls(buf: Seq<u8>, pending: Seq<Result<u8, InputError>>)
    requires
        1 <= buf.len() <= MAX_UTF8_WIDTH,
    ensures
        buf.len() - 1 <= utf8_from(buf, pending).pulls <= 3,
    decreases MAX_UTF8_WIDTH - buf.len(),
{
    if !valid_utf8(buf) && buf.len() < MAX_UTF8_WIDTH {
        match item_at(pending, buf.len() - 1) {
            Err(e) => {},
            Ok(b) => {
                lemma_utf8_from_pulls(buf.push(b), pending);
            },
        }
    }
}

/// A sequence that the end of the stream cuts short is an error, never an
/// event: whenever the decoder pulls beyond what is pending, the result is
/// `UnexpectedEof`.
pub proof fn lemma_truncated_is_error(item: u8, pending: Seq<Result<u8, InputError>>)
    requires
        event(item, pending).pulls > pending.len(),
    ensures
        event(item, pending).result == Err::<Event, InputError>(InputError::UnexpectedEof),
{
    if item == ESC {
    } else if control_byte(item) is None {
        lemma_utf8_from_truncated(seq![item], pending);
    }
}

proof fn lemma_utf8_from_truncated(buf: Seq<u8>, pending: Seq<Result<u8, InputError>>)
    requires
        1 <= buf.len() <= MAX_UTF8_WIDTH,
        buf.len() - 1 <= pending.len(),
        utf8_from(buf, pending).pulls > pending.len(),
    ensures
        utf8_from(buf, pending).result == Err::<char, InputError>(InputError::UnexpectedEof),
    decreases MAX_UTF8_WIDTH - buf.len(),
{
    if !valid_utf8(buf) && buf.len() < MAX_UTF8_WIDTH {
        match item_at(pending, buf.len() - 1) {
            Err(e) => {},
            Ok(b) => {
                lemma_utf8_from_truncated(buf.push(b), pending);
            },
        }
    }
}

/// An event is only decoded from bytes that were delivered: when the
/// result is an event, every pull that was made gave a byte.
pub proof fn lemma_event_from_delivered(item: u8, pending: Seq<Result<u8, InputError>>)
    requires
        event(item, pending).result is Ok,
    ensures
        event(item, pending).pulls <= pending.len(),
        forall|i: int| 0 <= i < event(item, pending).pulls ==> (#[trigger] pending[i]) is Ok,
{
    if item == ESC {
    } else if control_byte(item) is None {
        assert(seq![item].subrange(1, 1) =~= taken(pending, 0));
        lemma_utf8_from_sound(seq![item], pending);
    }
}

/// Decoding a character succeeds only on its encoding: when the UTF-8 path
/// gives a character, the first byte and the bytes that were pulled are
/// exactly the UTF-8 encoding of that character.
pub proof fn lemma_utf8_char_sound(c: u8, pending: Seq<Result<u8, InputError>>)
    requires
        utf8_char(c, pending).result is Ok,
    ensures
        ({
            let decoded = utf8_char(c, pending);
            &&& decoded.pulls <= 3
            &&& decoded.pulls <= pending.len()
            &&& forall|i: int| 0 <= i < decoded.pulls ==> (#[trigger] pending[i]) is Ok
            &&& seq![c] + taken(pending, decoded.pulls) == encode_scalar(
                decoded.result->Ok_0 as u32,
            )
        }),
{
    assert(seq![c].subrange(1, 1) =~= taken(pending, 0));
    lemma_utf8_from_sound(seq![c], pending);
}

/// No proper prefix of `buf` that is not empty is valid UTF-8.
spec fn no_valid_proper_prefix(buf: Seq<u8>) -> bool {
    forall|j: int| 1 <= j < buf.len() ==> !valid_utf8(#[trigger] buf.subrange(0, j))
}

proof fn lemma_utf8_from_sound(buf: Seq<u8>, pending: Seq<Result<u8, InputError>>)
    requires
        1 <= buf.len() <= MAX_UTF8_WIDTH,
        buf.len() - 1 <= pending.len(),
        forall|i: int| 0 <= i < buf.len() - 1 ==> (#[trigger] pending[i]) is Ok,
        buf.subrange(1, buf.len() as int) == taken(pending, (buf.len() - 1) as nat),
        no_valid_proper_prefix(buf),
        utf8_from(buf, pending).result is Ok,
    ensures
        ({
            let decoded = utf8_from(buf, pending);
            &&& buf.len() - 1 <= decoded.pulls <= 3
            &&& decoded.pulls <= pending.len()
            &&& forall|i: int| 0 <= i < decoded.pulls ==> (#[trigger] pending[i]) is Ok
            &&& seq![buf[0]] + taken(pending, decoded.pulls) == encode_scalar(
                decoded.result->Ok_0 as u32,
            )
        }),
    decreases MAX_UTF8_WIDTH - buf.len(),
{
    if valid_utf8(buf) {
        lemma_one_scalar(buf);
        assert(seq![buf[0]] + taken(pending, (buf.len() - 1) as nat) =~= buf);
    } else {
        let b = item_at(pending, buf.len() - 1)->Ok_0;
        let next = buf.push(b);
        let pulled = taken(pending, (buf.len() - 1) as nat);
        assert forall|i: int| 0 <= i < next.len() - 1 implies next[i + 1] == pending[i]->Ok_0 by {
            if i < buf.len() - 1 {
                assert(buf.subrange(1, buf.len() as int)[i] == pulled[i]);
            }
        }
        assert(next.subrange(1, next.len() as int) =~= taken(pending, (next.len() - 1) as nat));
        assert forall|j: int| 1 <= j < next.len() implies !valid_utf8(
            #[trigger] next.subrange(0, j),
        ) by {
            if j < buf.len() {
                assert(next.subrange(0, j) =~= buf.subrange(0, j));
            } else {
                assert(next.subrange(0, j) =~= buf);
            }
        }
        lemma_utf8_from_sound(next, pending);
        assert(next[0] == buf[0]);
    }
}

/// A valid buffer none of whose proper prefixes is valid holds one
/// character, and is its encoding.
proof fn lemma_one_scalar(buf: Seq<u8>)
    requires
        buf.len() >= 1,
        valid_utf8(buf),
        no_valid_proper_prefix(buf),
    ensures
        decode_utf8(buf).len() == 1,
        encode_scalar(decode_utf8(buf)[0] as u32) == buf,
{
    let width = vstd::utf8::length_of_first_scalar(buf);
    let first = vstd::utf8::take_first_scalar(buf);
    reveal_with_fuel(valid_utf8, 2);
    reveal_with_fuel(decode_utf8, 2);
    if width < buf.len() {
        assert(vstd::utf8::pop_first_scalar(first) =~= Seq::<u8>::empty());
        assert(first[0] == buf[0]);
        assert(valid_utf8(first));
        assert(false);
    }
    assert(first =~= buf);
    assert(vstd::utf8::pop_first_scalar(buf) =~= Seq::<u8>::empty());
    vstd::utf8::decode_utf8_first_scalar(buf);
}

/// Encoding a character to UTF-8 and decoding it byte by byte gives the
/// character back, for every character there is: the first byte of the
/// encoding, with the rest of it delivered by the source, decodes to the
/// character, and exactly the rest of the encoding is pulled.
pub proof fn lemma_utf8_round_trip(ch: char, tail: Seq<Result<u8, InputError>>)
    ensures
        ({
            let bytes = encode_scalar(ch as u32);
            &&& 1 <= bytes.len() <= 4
            &&& utf8_char(bytes[0], delivered(bytes.skip(1)) + tail) == (Decoded {
                result: Ok(ch),
                pulls: (bytes.len() - 1) as nat,
            })
        }),
{
    let bytes = encode_scalar(ch as u32);
    let pending = delivered(bytes.skip(1)) + tail;
    lemma_encoding_of_char(ch);
    assert(seq![bytes[0]] =~= bytes.subrange(0, 1));
    lemma_utf8_from_encoding(bytes, 1, pending);
}

/// The encoding of a character is valid, decodes to the character, and has
/// no valid proper prefix.
proof fn lemma_encoding_of_char(ch: char)
    ensures
        ({
            let bytes = encode_scalar(ch as u32);
            &&& 1 <= bytes.len() <= 4
            &&& valid_utf8(bytes)
            &&& decode_utf8(bytes) == seq![ch]
            &&& no_valid_proper_prefix(bytes)
        }),
{
    let bytes = encode_scalar(ch as u32);
    let text = seq![ch];
    reveal_with_fuel(vstd::utf8::encode_utf8, 2);
    assert(text.drop_first() =~= Seq::<char>::empty());
    assert(vstd::utf8::encode_utf8(text) =~= bytes);
    vstd::utf8::encode_utf8_first_scalar(text);
    vstd::utf8::encode_utf8_valid_utf8(text);
    vstd::utf8::encode_utf8_decode_utf8(text);
    assert forall|j: int| 1 <= j < bytes.len() implies !valid_utf8(
        #[trigger] bytes.subrange(0, j),
    ) by {
        let prefix = bytes.subrange(0, j);
        assert(prefix[0] == bytes[0]);
    }
}

proof fn lemma_utf8_from_encoding(
    bytes: Seq<u8>,
    k: int,
    pending: Seq<Result<u8, InputError>>,
)
    requires
        1 <= k <= bytes.len() <= MAX_UTF8_WIDTH,
        valid_utf8(bytes),
        no_valid_proper_prefix(bytes),
        forall|i: int| 0 <= i < bytes.len() - 1 ==> item_at(pending, i) == Ok::<u8, InputError>(
            bytes[i + 1],
        ),
    ensures
        utf8_from(bytes.subrange(0, k), pending) == (Decoded {
            result: Ok(decode_utf8(bytes)[0]),
            pulls: (bytes.len() - 1) as nat,
        }),
    decreases bytes.len() - k,
{
    let buf = bytes.subrange(0, k);
    if k == bytes.len() {
        assert(buf =~= bytes);
    } else {
        assert(item_at(pending, k - 1) == Ok::<u8, InputError>(bytes[k]));
        assert(buf.push(bytes[k]) =~= bytes.subrange(0, k + 1));
        lemma_utf8_from_encoding(bytes, k + 1, pending);
    }
}

/// The round trip for whole events: a character that is no control
/// character comes back as the event of its key, with no modifier.
pub proof fn lemma_char_round_trip(ch: char, tail: Seq<Result<u8, InputError>>)
    requires
        ch as u32 >= 0x20,
        ch as u32 != 0x7f,
    ensures
        ({
            let bytes = encode_scalar(ch as u32);
            event(bytes[0], delivered(bytes.skip(1)) + tail) == (Decoded {
                result: Ok(Event::pressed(Key::Char(ch), Set::empty())),
                pulls: (bytes.len() - 1) as nat,
            })
        }),
{
    let bytes = encode_scalar(ch as u32);
    let scalar = ch as u32;
    lemma_utf8_round_trip(ch, tail);
    lemma_encoding_of_char(ch);
    let first = bytes[0];
    assert(first >= 0x20 && first != 0x7f) by {
        assert(scalar <= 0x7f ==> (scalar & 0x7f) as u8 == scalar) by (bit_vector);
        assert(0xC0u8 | ((scalar >> 6) & 0x1F) as u8 >= 0xC0) by (bit_vector);
        assert(0xE0u8 | ((scalar >> 12) & 0x0F) as u8 >= 0xE0) by (bit_vector);
        assert(0xF0u8 | ((scalar >> 18) & 0x7) as u8 >= 0xF0) by (bit_vector);
    }
}

} // verus!
