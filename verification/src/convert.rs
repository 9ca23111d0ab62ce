//! Decoding of the little-endian two's-complement axis words held in the
//! output registers.

use vstd::prelude::*;

verus! {

/// The value that two bytes, low byte first, denote as a 16-bit
/// two's-complement word.
pub open spec fn le_signed16(lo: u8, hi: u8) -> int {
    if lo + 256 * hi < 0x8000 {
        lo + 256 * hi
    } else {
        lo + 256 * hi - 0x10000
    }
}

/// Decodes one axis word from its two output-register bytes, low byte first.
pub fn i16_from_le(lo: u8, hi: u8) -> (v: i16)
    ensures
        v as int == le_signed16(lo, hi),
{
    let word: u32 = lo as u32 + 256 * (hi as u32);
    if word < 0x8000 {
        word as i16
    } else {
        let magnitude: u32 = 0x10000 - word;
        if magnitude == 0x8000 {
            i16::MIN
        } else {
            -((magnitude as i32) as i16)
        }
    }
}

} // verus!
