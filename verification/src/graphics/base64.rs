//! Base64 encoding (RFC 4648, with padding).

use vstd::prelude::*;

verus! {

/// The 64 characters of the Base64 alphabet, in the order of their values.
pub open spec fn alphabet() -> Seq<char> {
    "ABCDEFGHIJKLMNOPQRSTUVWXYZabcdefghijklmnopqrstuvwxyz0123456789+/"@
}

/// This character is used for padding the Base64 encoded string when the
/// input data is not a multiple of 3 bytes.
pub const PADDING: char = '=';

/// The character that stands for the 6-bit value `value`.
pub fn symbol(value: u8) -> (c: char)
    requires
        value < 64,
    ensures
        c == alphabet()[value as int],
{
    proof {
        reveal_strlit("ABCDEFGHIJKLMNOPQRSTUVWXYZabcdefghijklmnopqrstuvwxyz0123456789+/");
    }
    if value < 26 {
        (0x41 + value) as char
    } else if value < 52 {
        (0x61 + (value - 26)) as char
    } else if value < 62 {
        (0x30 + (value - 52)) as char
    } else if value == 62 {
        '+'
    } else {
        '/'
    }
}

/// The byte of `data` at `i`, or 0 beyond its end: the bit string of the
/// data is padded with zeros to a whole number of 6-bit groups.
pub open spec fn byte_or_zero(data: Seq<u8>, i: int) -> int {
    if 0 <= i < data.len() {
        data[i] as int
    } else {
        0
    }
}

/// The value of the 6-bit group number `k` of the bit string of `data`.
/// Three bytes `a b c` hold four groups: the high six bits of `a`; the low
/// two of `a` and the high four of `b`; the low four of `b` and the high
/// two of `c`; the low six of `c`.
pub open spec fn sextet(data: Seq<u8>, k: int) -> int {
    let a = byte_or_zero(data, 3 * (k / 4));
    let b = byte_or_zero(data, 3 * (k / 4) + 1);
    let c = byte_or_zero(data, 3 * (k / 4) + 2);
    if k % 4 == 0 {
        a / 4
    } else if k % 4 == 1 {
        (a % 4) * 16 + b / 16
    } else if k % 4 == 2 {
        (b % 16) * 4 + c / 64
    } else {
        c % 64
    }
}

/// The number of 6-bit groups that hold data: 8 bits per byte, rounded up
/// to whole groups.
pub open spec fn symbol_count(len: nat) -> nat {
    ((8 * len + 5) / 6) as nat
}

/// The number of padding characters: what brings the output to a multiple
/// of four characters.
pub open spec fn padding_count(len: nat) -> nat {
    ((3 - len % 3) % 3) as nat
}

/// The Base64 encoding of `data`: the character of each 6-bit group, then
/// the padding.
pub open spec fn encoding(data: Seq<u8>) -> Seq<char> {
    Seq::new(
        symbol_count(data.len()) + padding_count(data.len()),
        |k: int|
            if k < symbol_count(data.len()) {
                alphabet()[sextet(data, k)]
            } else {
                PADDING
            },
    )
}

/// The six bits of the 16-bit window `from.0 from.1` that start `offset`
/// bits from its top.
///
/// With the bits of the two bytes written `XXXXXXXX YYYYYYYY`, an offset of
/// 4 gives `00XXYYYY`.
pub fn collect_six_bits(from: (u8, u8), offset: u8) -> (bits: u8)
    requires
        offset <= 10,
    ensures
        bits < 64,
        bits == (((from.0 as u16) << 8 | (from.1 as u16)) >> (10 - offset) as u16) & 0x3f,
        offset == 0 ==> bits == from.0 / 4,
        offset == 6 ==> bits == (from.0 % 4) * 16 + from.1 / 16,
        offset == 4 ==> bits == (from.0 % 16) * 4 + from.1 / 64,
        offset == 2 ==> bits == from.0 % 64,
{
    let hi: u8 = from.0;
    let lo: u8 = from.1;
    let combined: u16 = ((hi as u16) << 8) | (lo as u16);
    let bits = ((combined & (0b1111110000000000u16 >> offset)) >> (10 - offset)) as u8;
    proof {
        assert({
            &&& bits < 64
            &&& bits == (((hi as u16) << 8 | (lo as u16)) >> (10 - offset) as u16) & 0x3f
            &&& (offset == 0 ==> bits == hi / 4)
            &&& (offset == 6 ==> bits == (hi % 4) * 16 + lo / 16)
            &&& (offset == 4 ==> bits == (hi % 16) * 4 + lo / 64)
            &&& (offset == 2 ==> bits == hi % 64)
        }) by (bit_vector)
            requires
                offset <= 10,
                bits == (((((hi as u16) << 8) | (lo as u16)) & (0b1111110000000000u16 >> offset))
                    >> (10 - offset) as u8) as u8,
        ;
    }
    bits
}

/// Base64 encoding converts binary data into a textual representation
/// using 64 ASCII characters. Each Base64 character represents 6 bits
/// of the binary data.
pub fn base64_encode(data: &[u8]) -> (encoded: String)
    ensures
        encoded@ == encoding(data@),
{
    let mut encoded_string = String::new();
    // The next group starts `offset` bits into the byte at `index`.
    let mut index: usize = 0;
    let mut offset: u8 = 0;
    let ghost mut count: int = 0;

    while index < data.len()
        invariant
            index <= data.len(),
            offset == 0 || offset == 2 || offset == 4 || offset == 6,
            8 * index + offset == 6 * count,
            0 <= count <= symbol_count(data@.len()),
            index == data.len() ==> count == symbol_count(data@.len()),
            encoded_string@.len() == count,
            forall|k: int| 0 <= k < count ==> encoded_string@[k] == alphabet()[sextet(data@, k)],
        decreases data.len() - index, 8 - offset,
    {
        let lower_byte_to_encode = data[index];
        let upper_byte_to_encode = if index + 1 == data.len() {
            0u8
        } else {
            data[index + 1]
        };
        let six_bits = collect_six_bits((lower_byte_to_encode, upper_byte_to_encode), offset);
        proof {
            assert(six_bits == sextet(data@, count)) by {
                lemma_group_position(index as int, offset as int, count);
            }
        }
        encoded_string.push(symbol(six_bits));

        if offset >= 2 {
            index += 1;
            offset -= 2;
        } else {
            offset += 6;
        }
        proof {
            count = count + 1;
        }
    }

    let padding_needed = (3 - data.len() % 3) % 3;
    let mut padded: usize = 0;
    while padded < padding_needed
        invariant
            padded <= padding_needed,
            padding_needed == padding_count(data@.len()),
            encoded_string@.len() == symbol_count(data@.len()) + padded,
            forall|k: int|
                0 <= k < symbol_count(data@.len()) ==> encoded_string@[k] == alphabet()[sextet(
                    data@,
                    k,
                )],
            forall|k: int|
                symbol_count(data@.len()) <= k < encoded_string@.len() ==> encoded_string@[k]
                    == PADDING,
        decreases padding_needed - padded,
    {
        encoded_string.push(PADDING);
        padded += 1;
    }

    proof {
        assert(encoded_string@ =~= encoding(data@));
    }
    encoded_string
}

/// The encoding has four characters for every three bytes of data, the
/// last three rounded up.
pub proof fn lemma_encoding_len(data: Seq<u8>)
    ensures
        encoding(data).len() == 4 * ((data.len() + 2) / 3),
{
}

/// Where the group number `count` lies: when it starts `offset` bits into
/// the byte at `index`, the offset tells its place among the four groups
/// of its three bytes.
proof fn lemma_group_position(index: int, offset: int, count: int)
    requires
        0 <= index,
        offset == 0 || offset == 2 || offset == 4 || offset == 6,
        8 * index + offset == 6 * count,
    ensures
        offset == 0 ==> count % 4 == 0 && index == 3 * (count / 4),
        offset == 6 ==> count % 4 == 1 && index == 3 * (count / 4),
        offset == 4 ==> count % 4 == 2 && index == 3 * (count / 4) + 1,
        offset == 2 ==> count % 4 == 3 && index == 3 * (count / 4) + 2,
{
}

} // verus!
