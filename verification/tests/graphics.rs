use neutuino::graphics::base64::{base64_encode, collect_six_bits, symbol, PADDING};
use neutuino::graphics::{
    image_escape_sequence, ANSI_GRAPHICS_PROTOCOL_ESCAPE_END, ANSI_GRAPHICS_PROTOCOL_ESCAPE_START,
};

#[test]
fn base64_of_the_standard_test_vectors() {
    assert_eq!(base64_encode(b""), "");
    assert_eq!(base64_encode(b"f"), "Zg==");
    assert_eq!(base64_encode(b"fo"), "Zm8=");
    assert_eq!(base64_encode(b"foo"), "Zm9v");
    assert_eq!(base64_encode(b"foob"), "Zm9vYg==");
    assert_eq!(base64_encode(b"fooba"), "Zm9vYmE=");
    assert_eq!(base64_encode(b"foobar"), "Zm9vYmFy");
}

#[test]
fn base64_of_binary_data() {
    assert_eq!(base64_encode(&[0x00]), "AA==");
    assert_eq!(base64_encode(&[0xff]), "/w==");
    assert_eq!(base64_encode(&[0xff, 0xff]), "//8=");
    assert_eq!(base64_encode(&[0xff, 0xff, 0xff]), "////");
    assert_eq!(base64_encode(&[0xfb, 0xef, 0xbe]), "++++");
    assert_eq!(base64_encode(&[0x00, 0x00, 0x00, 0x00]), "AAAAAA==");
    assert_eq!(base64_encode(&[0x14, 0xfb, 0x9c, 0x03, 0xd9, 0x7e]), "FPucA9l+");
    assert_eq!(base64_encode(b"Man"), "TWFu");
    assert_eq!(base64_encode(b"Ma"), "TWE=");
    assert_eq!(base64_encode(b"M"), "TQ==");
}

#[test]
fn base64_length_is_four_characters_for_every_three_bytes() {
    let data: Vec<u8> = (0..=255u8).collect();
    for len in 0..data.len() {
        let encoded = base64_encode(&data[..len]);
        assert_eq!(encoded.len(), 4 * ((len + 2) / 3));
        let padding = encoded.chars().filter(|c| *c == PADDING).count();
        assert_eq!(padding, (3 - len % 3) % 3);
        assert!(encoded.chars().rev().take(padding).all(|c| c == '='));
    }
}

#[test]
fn symbols_are_the_alphabet_in_order() {
    let alphabet = "ABCDEFGHIJKLMNOPQRSTUVWXYZabcdefghijklmnopqrstuvwxyz0123456789+/";
    for (value, c) in alphabet.chars().enumerate() {
        assert_eq!(symbol(value as u8), c);
    }
}

#[test]
fn six_bits_of_a_window() {
    // XXXXXXXX YYYYYYYY with an offset of 4 gives 00XXYYYY.
    assert_eq!(collect_six_bits((0b1010_0110, 0b1101_0011), 4), 0b0001_1011);
    assert_eq!(collect_six_bits((0b1010_0110, 0b1101_0011), 0), 0b0010_1001);
    assert_eq!(collect_six_bits((0b1010_0110, 0b1101_0011), 2), 0b0010_0110);
    assert_eq!(collect_six_bits((0b1010_0110, 0b1101_0011), 6), 0b0010_1101);
    assert_eq!(collect_six_bits((0b1010_0110, 0b1101_0011), 10), 0b0001_0011);
    assert_eq!(collect_six_bits((0xff, 0xff), 0), 63);
    assert_eq!(collect_six_bits((0x00, 0xff), 0), 0);
    assert_eq!(collect_six_bits((0x4d, 0x61), 0), 19);
    assert_eq!(collect_six_bits((0x4d, 0x61), 6), 22);
    assert_eq!(collect_six_bits((0x61, 0x6e), 4), 5);
    assert_eq!(collect_six_bits((0x6e, 0x00), 2), 46);
}

#[test]
fn escape_sequence_carries_the_path_in_base64() {
    assert_eq!(ANSI_GRAPHICS_PROTOCOL_ESCAPE_START, "\x1b_G");
    assert_eq!(ANSI_GRAPHICS_PROTOCOL_ESCAPE_END, "\x1b\\");
    assert_eq!(
        image_escape_sequence("/tmp/neutuino-graphics/tmp.png"),
        "\x1b_Ga=T,f=100;L3RtcC9uZXV0dWluby1ncmFwaGljcy90bXAucG5n\x1b\\"
    );
    assert_eq!(image_escape_sequence(""), "\x1b_Ga=T,f=100;\x1b\\");
    assert_eq!(image_escape_sequence("é"), "\x1b_Ga=T,f=100;w6k=\x1b\\");
}
