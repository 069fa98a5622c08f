//! Error taxonomy of the driver.

use vstd::prelude::*;

verus! {

/// A transport read or write failed: device disconnected, NACK, timeout, or a
/// short read.  The driver never retries; the error propagates to the caller.
#[derive(Clone, Copy, Debug, PartialEq, Eq, Structural)]
pub struct BusError;

/// A failure while constructing the driver.
#[derive(Clone, Copy, Debug, PartialEq, Eq, Structural)]
pub enum Error {
    /// The transport failed during the calibration read.
    Bus,
    /// The calibration block decoded to one of the two sentinel patterns
    /// (all words zero or all words ones), which signals a missing device or
    /// a stuck bus rather than a usable sensor.
    InvalidCalibration,
}

} // verus!
