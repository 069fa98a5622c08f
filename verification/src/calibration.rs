//! The device's factory calibration block.
//!
//! Eleven big-endian 16-bit coefficients sit in a contiguous register range;
//! they are read once at driver construction and never change afterwards.
//! `AC1`–`AC3`, `B1`, `B2`, `MB`, `MC` and `MD` are signed, `AC4`–`AC6` are
//! unsigned.

use crate::error::Error;
use vstd::prelude::*;

verus! {

/// The eleven coefficients, decoded to their signed or unsigned widths.
#[derive(Clone, Copy, Debug, PartialEq, Eq, Structural)]
pub struct CalibrationData {
    pub ac1: i16,
    pub ac2: i16,
    pub ac3: i16,
    pub ac4: u16,
    pub ac5: u16,
    pub ac6: u16,
    pub b1: i16,
    pub b2: i16,
    pub mb: i16,
    pub mc: i16,
    pub md: i16,
}

/// The unsigned 16-bit word formed by a big-endian byte pair.
pub open spec fn word_be(hi: u8, lo: u8) -> int {
    hi * 256 + lo
}

/// The two's-complement reading of an unsigned 16-bit word.
pub open spec fn as_signed(w: int) -> int {
    if w < 32768 {
        w
    } else {
        w - 65536
    }
}

/// The word at position `i` (0 to 10) of the 22-byte calibration block.
pub open spec fn block_word(bytes: Seq<u8>, i: int) -> int {
    word_be(bytes[2 * i], bytes[2 * i + 1])
}

/// The coefficients encoded by a 22-byte calibration block, in the device's
/// documented order and signedness.
pub open spec fn spec_decode(bytes: Seq<u8>) -> CalibrationData {
    CalibrationData {
        ac1: as_signed(block_word(bytes, 0)) as i16,
        ac2: as_signed(block_word(bytes, 1)) as i16,
        ac3: as_signed(block_word(bytes, 2)) as i16,
        ac4: block_word(bytes, 3) as u16,
        ac5: block_word(bytes, 4) as u16,
        ac6: block_word(bytes, 5) as u16,
        b1: as_signed(block_word(bytes, 6)) as i16,
        b2: as_signed(block_word(bytes, 7)) as i16,
        mb: as_signed(block_word(bytes, 8)) as i16,
        mc: as_signed(block_word(bytes, 9)) as i16,
        md: as_signed(block_word(bytes, 10)) as i16,
    }
}

/// Every coefficient word is 0x0000.
pub open spec fn is_all_zero(c: CalibrationData) -> bool {
    &&& c.ac1 == 0
    &&& c.ac2 == 0
    &&& c.ac3 == 0
    &&& c.ac4 == 0
    &&& c.ac5 == 0
    &&& c.ac6 == 0
    &&& c.b1 == 0
    &&& c.b2 == 0
    &&& c.mb == 0
    &&& c.mc == 0
    &&& c.md == 0
}

/// Every coefficient word is 0xFFFF.
pub open spec fn is_all_ones(c: CalibrationData) -> bool {
    &&& c.ac1 == -1
    &&& c.ac2 == -1
    &&& c.ac3 == -1
    &&& c.ac4 == 0xFFFF
    &&& c.ac5 == 0xFFFF
    &&& c.ac6 == 0xFFFF
    &&& c.b1 == -1
    &&& c.b2 == -1
    &&& c.mb == -1
    &&& c.mc == -1
    &&& c.md == -1
}

/// The two byte patterns that cannot come from a working sensor: a missing
/// device or a stuck bus reads back as all zeros or all ones.
pub open spec fn is_sentinel(c: CalibrationData) -> bool {
    is_all_zero(c) || is_all_ones(c)
}

/// Decodes a big-endian byte pair as a signed 16-bit coefficient.
fn decode_i16(hi: u8, lo: u8) -> (r: i16)
    ensures
        r == as_signed(word_be(hi, lo)),
{
    let w: u32 = (hi as u32) * 256 + (lo as u32);
    if w < 32768 {
        w as i16
    } else if w == 32768 {
        i16::MIN
    } else {
        let m: u32 = 65536 - w;
        -(m as i16)
    }
}

/// Decodes a big-endian byte pair as an unsigned 16-bit coefficient.
fn decode_u16(hi: u8, lo: u8) -> (r: u16)
    ensures
        r == word_be(hi, lo),
{
    (hi as u16) * 256 + (lo as u16)
}

impl CalibrationData {
    /// Decodes the 22-byte calibration block, rejecting the two sentinel
    /// patterns: the result is exactly the decoded coefficients when they are
    /// usable, and `InvalidCalibration` precisely when the block is one of
    /// the two sentinels.
    pub fn from_bytes(bytes: &Vec<u8>) -> (r: Result<CalibrationData, Error>)
        requires
            bytes@.len() == 22,
        ensures
            r == (if is_sentinel(spec_decode(bytes@)) {
                Err::<CalibrationData, Error>(Error::InvalidCalibration)
            } else {
                Ok::<CalibrationData, Error>(spec_decode(bytes@))
            }),
    {
        let c = CalibrationData {
            ac1: decode_i16(bytes[0], bytes[1]),
            ac2: decode_i16(bytes[2], bytes[3]),
            ac3: decode_i16(bytes[4], bytes[5]),
            ac4: decode_u16(bytes[6], bytes[7]),
            ac5: decode_u16(bytes[8], bytes[9]),
            ac6: decode_u16(bytes[10], bytes[11]),
            b1: decode_i16(bytes[12], bytes[13]),
            b2: decode_i16(bytes[14], bytes[15]),
            mb: decode_i16(bytes[16], bytes[17]),
            mc: decode_i16(bytes[18], bytes[19]),
            md: decode_i16(bytes[20], bytes[21]),
        };
        proof {
            assert(c == spec_decode(bytes@));
        }
        let zero = c.ac1 == 0 && c.ac2 == 0 && c.ac3 == 0 && c.ac4 == 0 && c.ac5 == 0 && c.ac6
            == 0 && c.b1 == 0 && c.b2 == 0 && c.mb == 0 && c.mc == 0 && c.md == 0;
        let ones = c.ac1 == -1 && c.ac2 == -1 && c.ac3 == -1 && c.ac4 == 0xFFFF && c.ac5 == 0xFFFF
            && c.ac6 == 0xFFFF && c.b1 == -1 && c.b2 == -1 && c.mb == -1 && c.mc == -1 && c.md
            == -1;
        if zero || ones {
            Err(Error::InvalidCalibration)
        } else {
            Ok(c)
        }
    }
}

} // verus!
