//! The driver façade: owns the bus handle and the calibration data, runs
//! measurement cycles, and keeps the most recent compensated reading.

use crate::bus::Bus;
use crate::calibration::is_sentinel;
use crate::calibration::CalibrationData;
use crate::compensation::compensate_pressure;
use crate::compensation::compensate_temperature;
use crate::compensation::spec_b5;
use crate::compensation::spec_pressure;
use crate::compensation::spec_temperature;
use crate::error::BusError;
use crate::error::Error;
use crate::oversampling::Oversampling;
use crate::sequence::read_raw_pressure;
use crate::sequence::read_raw_temperature;
use crate::sequence::CALIBRATION_LEN;
use crate::sequence::CALIBRATION_REG;
use crate::sequence::DEVICE_ADDR;
use vstd::prelude::*;

verus! {

/// One compensated measurement: temperature in tenths of a degree Celsius
/// and pressure in Pascals.
#[derive(Clone, Copy, Debug, PartialEq, Eq, Structural)]
pub struct Reading {
    pub temperature_dc: i32,
    pub pressure_pa: i32,
}

/// Holds when `r` is the compensation of the raw counts `ut` and `up` under
/// the calibration block `c` at oversampling `oss`.
pub open spec fn measured_from(
    r: Reading,
    c: CalibrationData,
    oss: Oversampling,
    ut: int,
    up: int,
) -> bool {
    &&& 0 <= ut < 65536
    &&& 0 <= up < 0x80000
    &&& r.temperature_dc == spec_temperature(ut, c)
    &&& r.pressure_pa == spec_pressure(up, oss, spec_b5(ut, c), c)
}

/// Holds when `r` could have come out of a measurement cycle under `c` and
/// `oss`: some pair of in-range raw counts compensates to it.
pub open spec fn valid_reading(r: Reading, c: CalibrationData, oss: Oversampling) -> bool {
    exists|ut: int, up: int| measured_from(r, c, oss, ut, up)
}

/// The driver.  Constructed by reading the calibration block once; after
/// that, every successful `measure` replaces the cached reading, and a
/// failed one leaves the previous reading untouched (stale but valid).
pub struct Bmp180<B: Bus> {
    bus: B,
    calib: CalibrationData,
    oversampling: Oversampling,
    last: Option<Reading>,
}

impl<B: Bus> Bmp180<B> {
    /// The calibration block read at construction; immutable afterwards.
    pub closed spec fn spec_calib(self) -> CalibrationData {
        self.calib
    }

    /// The oversampling level used for pressure conversions.
    pub closed spec fn spec_oversampling(self) -> Oversampling {
        self.oversampling
    }

    /// The most recent compensated reading, if any measurement succeeded.
    pub closed spec fn spec_reading(self) -> Option<Reading> {
        self.last
    }

    /// Reads and validates the calibration block, consuming the bus handle.
    /// Fails with `Bus` if the transport fails, with `InvalidCalibration` if
    /// the block decodes to a sentinel pattern; neither failure is masked.
    /// A fresh driver has no cached reading and standard oversampling.
    pub fn new(bus: B) -> (r: Result<Bmp180<B>, Error>)
        ensures
            r matches Ok(d) ==> {
                &&& !is_sentinel(d.spec_calib())
                &&& d.spec_reading() is None
                &&& d.spec_oversampling() == Oversampling::Standard
            },
            r matches Err(e) ==> e == Error::Bus || e == Error::InvalidCalibration,
    {
        let mut bus = bus;
        let data = match bus.read(DEVICE_ADDR, CALIBRATION_REG, CALIBRATION_LEN) {
            Ok(v) => v,
            Err(_) => {
                return Err(Error::Bus);
            },
        };
        let calib = match CalibrationData::from_bytes(&data) {
            Ok(c) => c,
            Err(e) => {
                return Err(e);
            },
        };
        Ok(Bmp180 { bus, calib, oversampling: Oversampling::Standard, last: None })
    }

    /// Selects the oversampling level for future pressure conversions;
    /// nothing else about the driver changes.
    pub fn set_oversampling(&mut self, oss: Oversampling)
        ensures
            final(self).spec_oversampling() == oss,
            final(self).spec_calib() == old(self).spec_calib(),
            final(self).spec_reading() == old(self).spec_reading(),
    {
        self.oversampling = oss;
    }

    /// Runs one full measurement cycle: temperature conversion, pressure
    /// conversion at the configured oversampling, compensation of both.  On
    /// success the cached reading is replaced by the compensation of the raw
    /// counts just read; on any bus failure the cycle aborts, the previous
    /// reading is retained unchanged, and the error surfaces.  The
    /// calibration block and the oversampling setting never change.
    pub fn measure(&mut self) -> (r: Result<(), BusError>)
        ensures
            final(self).spec_calib() == old(self).spec_calib(),
            final(self).spec_oversampling() == old(self).spec_oversampling(),
            r is Err ==> final(self).spec_reading() == old(self).spec_reading(),
            r is Ok ==> {
                &&& final(self).spec_reading() matches Some(rd)
                &&& valid_reading(rd, old(self).spec_calib(), old(self).spec_oversampling())
            },
    {
        let ut = match read_raw_temperature(&mut self.bus) {
            Ok(v) => v,
            Err(e) => {
                return Err(e);
            },
        };
        let (t, b5) = compensate_temperature(ut, &self.calib);
        let up = match read_raw_pressure(&mut self.bus, self.oversampling) {
            Ok(v) => v,
            Err(e) => {
                return Err(e);
            },
        };
        let p = compensate_pressure(up, self.oversampling, b5, &self.calib);
        let rd = Reading { temperature_dc: t, pressure_pa: p };
        proof {
            assert(measured_from(rd, self.calib, self.oversampling, ut as int, up as int));
        }
        self.last = Some(rd);
        Ok(())
    }

    /// The temperature of the most recent successful measurement, in tenths
    /// of a degree Celsius, or `None` before the first success.
    pub fn get_temperature(&self) -> (r: Option<i32>)
        ensures
            r == match self.spec_reading() {
                Some(rd) => Some(rd.temperature_dc),
                None => None::<i32>,
            },
    {
        match &self.last {
            Some(rd) => Some(rd.temperature_dc),
            None => None,
        }
    }

    /// The pressure of the most recent successful measurement, in Pascals,
    /// or `None` before the first success.
    pub fn get_pressure(&self) -> (r: Option<i32>)
        ensures
            r == match self.spec_reading() {
                Some(rd) => Some(rd.pressure_pa),
                None => None::<i32>,
            },
    {
        match &self.last {
            Some(rd) => Some(rd.pressure_pa),
            None => None,
        }
    }

    /// The most recent successful measurement as a whole.
    pub fn get_reading(&self) -> (r: Option<Reading>)
        ensures
            r == self.spec_reading(),
    {
        match &self.last {
            Some(rd) => Some(*rd),
            None => None,
        }
    }
}

} // verus!
