//! The narrow capability interface the driver needs from its platform.

use crate::error::BusError;
use vstd::prelude::*;

verus! {

/// A half-duplex addressed transport (an I2C master) together with the
/// platform's timed wait.  The driver assumes exclusive access to the device
/// for the duration of each conversion: no other party may issue commands
/// between a trigger write and the matching result read.
///
/// Implementations decide whether an operation succeeds (a real bus can fail
/// at any time), so nothing here promises success; a successful read does
/// return exactly the number of bytes that was requested.
pub trait Bus: Sized {
    /// Write `data` to the device at 7-bit address `addr`.
    fn write(&mut self, addr: u8, data: &Vec<u8>) -> (r: Result<(), BusError>);

    /// Read `len` bytes starting at register `reg` of the device at `addr`.
    /// A short answer from the device is a transport failure, not a success.
    fn read(&mut self, addr: u8, reg: u8, len: usize) -> (r: Result<Vec<u8>, BusError>)
        ensures
            r matches Ok(v) ==> v@.len() == len,
    ;

    /// Block the calling context for at least `ms` milliseconds.
    fn delay_ms(&mut self, ms: u32);
}

} // verus!
