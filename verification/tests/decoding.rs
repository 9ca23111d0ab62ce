//! Decoding of little-endian two's-complement axis words.

use lsm303_i2c::convert::i16_from_le;

#[test]
fn positive_words_decode_directly() {
    assert_eq!(i16_from_le(0x00, 0x00), 0);
    assert_eq!(i16_from_le(0x34, 0x12), 0x1234);
    assert_eq!(i16_from_le(0xff, 0x7f), i16::MAX);
}

#[test]
fn negative_words_decode_as_twos_complement() {
    assert_eq!(i16_from_le(0xff, 0xff), -1);
    assert_eq!(i16_from_le(0x00, 0x80), i16::MIN);
    assert_eq!(i16_from_le(0xc0, 0xff), -64);
}
