//! The device's documented conversion sequence: select the measurement,
//! trigger it, wait out the conversion time, read the raw result.
//!
//! A bus error during either the trigger write or the result read aborts the
//! sequence; no partial reading is ever returned.  Retry policy belongs to
//! the caller: a transient glitch and a missing device look the same here.

use crate::bus::Bus;
use crate::error::BusError;
use crate::oversampling::Oversampling;
use vstd::prelude::*;

verus! {

/// The device's fixed 7-bit I2C address.
pub const DEVICE_ADDR: u8 = 0x77;

/// Register that measurement commands are written to.
pub const CONTROL_REG: u8 = 0xF4;

/// First register of the conversion result.
pub const RESULT_REG: u8 = 0xF6;

/// First register of the 22-byte calibration block.
pub const CALIBRATION_REG: u8 = 0xAA;

/// Number of bytes in the calibration block.
pub const CALIBRATION_LEN: usize = 22;

/// Control-register command that starts a temperature conversion.
pub const TEMPERATURE_CMD: u8 = 0x2E;

/// Wait after triggering a temperature conversion, independent of the
/// oversampling setting: the datasheet's maximum conversion time rounded up
/// to a whole millisecond.
pub const TEMPERATURE_DELAY_MS: u32 = 5;

/// The unsigned 16-bit raw temperature encoded by the two result bytes.
pub fn decode_raw_temperature(hi: u8, lo: u8) -> (r: i32)
    ensures
        r == hi * 256 + lo,
        0 <= r < 65536,
{
    (hi as i32) * 256 + (lo as i32)
}

/// The raw pressure encoded by the three result bytes at an oversampling
/// setting: the 24-bit big-endian value divided by `2^(8 - level)` per the
/// device's documented bit alignment.
pub fn decode_raw_pressure(b0: u8, b1: u8, b2: u8, oss: Oversampling) -> (r: i32)
    ensures
        r == (b0 * 65536 + b1 * 256 + b2) as int / oss.spec_pressure_divisor(),
        0 <= r < 0x80000,
{
    let raw24: u32 = (b0 as u32) * 65536 + (b1 as u32) * 256 + (b2 as u32);
    let q: u32 = raw24 / oss.pressure_divisor();
    proof {
        vstd::arithmetic::div_mod::lemma_div_is_ordered(
            raw24 as int,
            0xFFFFFF,
            oss.spec_pressure_divisor(),
        );
        vstd::arithmetic::div_mod::lemma_div_is_ordered_by_denominator(0xFFFFFF, 32, oss.spec_pressure_divisor());
        vstd::arithmetic::div_mod::lemma_div_pos_is_pos(raw24 as int, oss.spec_pressure_divisor());
    }
    q as i32
}

/// Runs one temperature conversion: trigger, fixed wait, 16-bit read.
/// Whatever bytes the device answers with, a successful result is the
/// decoded 16-bit raw count.
pub fn read_raw_temperature<B: Bus>(bus: &mut B) -> (r: Result<i32, BusError>)
    ensures
        r matches Ok(ut) ==> 0 <= ut < 65536,
{
    let cmd: Vec<u8> = vec![CONTROL_REG, TEMPERATURE_CMD];
    match bus.write(DEVICE_ADDR, &cmd) {
        Ok(()) => {},
        Err(e) => {
            return Err(e);
        },
    }
    bus.delay_ms(TEMPERATURE_DELAY_MS);
    let data = match bus.read(DEVICE_ADDR, RESULT_REG, 2) {
        Ok(v) => v,
        Err(e) => {
            return Err(e);
        },
    };
    Ok(decode_raw_temperature(data[0], data[1]))
}

/// Runs one pressure conversion at the given oversampling level: trigger
/// with the level's command byte, wait the level's conversion time, 24-bit
/// read, realign.  The wait always matches the level that was written to the
/// control register for this very conversion.
pub fn read_raw_pressure<B: Bus>(bus: &mut B, oss: Oversampling) -> (r: Result<i32, BusError>)
    ensures
        r matches Ok(up) ==> 0 <= up < 0x80000,
{
    let cmd: Vec<u8> = vec![CONTROL_REG, oss.pressure_command()];
    match bus.write(DEVICE_ADDR, &cmd) {
        Ok(()) => {},
        Err(e) => {
            return Err(e);
        },
    }
    bus.delay_ms(oss.conversion_delay_ms());
    let data = match bus.read(DEVICE_ADDR, RESULT_REG, 3) {
        Ok(v) => v,
        Err(e) => {
            return Err(e);
        },
    };
    Ok(decode_raw_pressure(data[0], data[1], data[2], oss))
}

} // verus!
