//! The Windows side: native console records and console modes.
//!
//! A console mode is a word of flag bits that is read from the console and
//! written back to it. The functions here compute the word to write from
//! the word that was read; reading and writing are the caller's.

use vstd::prelude::*;

pub mod input;

verus! {

/* Flags of the input mode */

pub const ENABLE_PROCESSED_INPUT: u32 = 1;

pub const ENABLE_LINE_INPUT: u32 = 2;

pub const ENABLE_ECHO_INPUT: u32 = 4;

/* Flags of the output mode */

pub const ENABLE_VIRTUAL_TERMINAL_PROCESSING: u32 = 4;

/// The three flags of the input mode that make up cooked input: echo, line
/// buffering and processing of control keys.
pub const COOKED_INPUT: u32 = 7;

/// Whether the flag bit `flag` is set in `mode`.
pub open spec fn has_flag(mode: u32, flag: u32) -> bool {
    mode & flag != 0
}

/// The input mode for raw input: `mode` without echo, line buffering and
/// processing of control keys, every other flag as it was.
pub fn enable_raw_mode(mode: u32) -> (raw: u32)
    ensures
        raw == mode & !COOKED_INPUT,
        raw == mode - mode % 8,
        !has_flag(raw, ENABLE_ECHO_INPUT),
        !has_flag(raw, ENABLE_LINE_INPUT),
        !has_flag(raw, ENABLE_PROCESSED_INPUT),
        forall|flag: u32| flag & COOKED_INPUT == 0 ==> has_flag(raw, flag) == has_flag(mode, flag),
{
    let raw = mode & !(ENABLE_ECHO_INPUT | ENABLE_LINE_INPUT | ENABLE_PROCESSED_INPUT);
    proof {
        assert(raw == mode & !7u32 && raw == mode - mode % 8 && raw & 4 == 0 && raw & 2 == 0 && raw
            & 1 == 0) by (bit_vector)
            requires
                raw == mode & !(4u32 | 2u32 | 1u32),
        ;
        assert forall|flag: u32| flag & COOKED_INPUT == 0 implies has_flag(raw, flag) == has_flag(
            mode,
            flag,
        ) by {
            assert((raw & flag != 0) == (mode & flag != 0)) by (bit_vector)
                requires
                    raw == mode & !7u32,
                    flag & 7 == 0,
            ;
        }
    }
    raw
}

/// The input mode for cooked input: `mode` with echo, line buffering and
/// processing of control keys, every other flag as it was.
pub fn disable_raw_mode(mode: u32) -> (cooked: u32)
    ensures
        cooked == mode | COOKED_INPUT,
        cooked == mode - mode % 8 + 7,
        has_flag(cooked, ENABLE_ECHO_INPUT),
        has_flag(cooked, ENABLE_LINE_INPUT),
        has_flag(cooked, ENABLE_PROCESSED_INPUT),
        forall|flag: u32|
            flag & COOKED_INPUT == 0 ==> has_flag(cooked, flag) == has_flag(mode, flag),
{
    let cooked = mode | (ENABLE_ECHO_INPUT | ENABLE_LINE_INPUT | ENABLE_PROCESSED_INPUT);
    proof {
        assert(cooked == mode | 7u32 && cooked == mode - mode % 8 + 7 && cooked & 4 != 0 && cooked
            & 2 != 0 && cooked & 1 != 0) by (bit_vector)
            requires
                cooked == mode | (4u32 | 2u32 | 1u32),
        ;
        assert forall|flag: u32| flag & COOKED_INPUT == 0 implies has_flag(cooked, flag)
            == has_flag(mode, flag) by {
            assert((cooked & flag != 0) == (mode & flag != 0)) by (bit_vector)
                requires
                    cooked == mode | 7u32,
                    flag & 7 == 0,
            ;
        }
    }
    cooked
}

/// The output mode in which the console interprets ANSI sequences: `mode`
/// with virtual terminal processing, every other flag as it was.
pub fn enable_ansi(mode: u32) -> (ansi: u32)
    ensures
        ansi == mode | ENABLE_VIRTUAL_TERMINAL_PROCESSING,
        has_flag(ansi, ENABLE_VIRTUAL_TERMINAL_PROCESSING),
        forall|flag: u32|
            flag & ENABLE_VIRTUAL_TERMINAL_PROCESSING == 0 ==> has_flag(ansi, flag) == has_flag(
                mode,
                flag,
            ),
{
    let ansi = mode | ENABLE_VIRTUAL_TERMINAL_PROCESSING;
    proof {
        assert(ansi & 4 != 0) by (bit_vector)
            requires
                ansi == mode | 4u32,
        ;
        assert forall|flag: u32| flag & ENABLE_VIRTUAL_TERMINAL_PROCESSING == 0 implies has_flag(
            ansi,
            flag,
        ) == has_flag(mode, flag) by {
            assert((ansi & flag != 0) == (mode & flag != 0)) by (bit_vector)
                requires
                    ansi == mode | 4u32,
                    flag & 4 == 0,
            ;
        }
    }
    ansi
}

} // verus!
