//! Tests of the driver façade: construction, measurement cycles, and the
//! retention of the last known-good reading across bus failures.

use bmp180::driver::Bmp180;
use bmp180::error::{BusError, Error};
use bmp180::oversampling::Oversampling;
use bmp180::sim::{ScriptedRead, SimBus};

/// The 22 calibration bytes of the datasheet's worked example.
fn calib_reply() -> ScriptedRead {
    ScriptedRead::Reply(vec![
        0x01, 0x98, 0xFF, 0xB8, 0xC7, 0xD1, 0x7F, 0xE5, 0x7F, 0xF5, 0x5A, 0x71, 0x18, 0x2E, 0x00,
        0x04, 0x80, 0x00, 0xDD, 0xF9, 0x0B, 0x34,
    ])
}

/// The datasheet's raw temperature, 27898, as a result-register reply.
fn temp_reply() -> ScriptedRead {
    ScriptedRead::Reply(vec![0x6C, 0xFA])
}

/// The datasheet's raw pressure, 23843 at ultra low power, as a three-byte
/// result-register reply.
fn pressure_reply() -> ScriptedRead {
    ScriptedRead::Reply(vec![0x5D, 0x23, 0x00])
}

#[test]
fn fresh_driver_has_no_reading() {
    let bus = SimBus::new(vec![calib_reply()]);
    let driver = Bmp180::new(bus).unwrap();
    assert_eq!(driver.get_temperature(), None);
    assert_eq!(driver.get_pressure(), None);
    assert!(driver.get_reading().is_none());
}

#[test]
fn construction_fails_on_bus_fault() {
    let bus = SimBus::new(vec![ScriptedRead::Fault]);
    assert!(matches!(Bmp180::new(bus), Err(Error::Bus)));
}

#[test]
fn construction_fails_on_zero_calibration() {
    let bus = SimBus::new(vec![ScriptedRead::Reply(vec![0x00; 22])]);
    assert!(matches!(Bmp180::new(bus), Err(Error::InvalidCalibration)));
}

#[test]
fn construction_fails_on_ones_calibration() {
    let bus = SimBus::new(vec![ScriptedRead::Reply(vec![0xFF; 22])]);
    assert!(matches!(Bmp180::new(bus), Err(Error::InvalidCalibration)));
}

#[test]
fn measure_reproduces_the_datasheet_example() {
    let bus = SimBus::new(vec![calib_reply(), temp_reply(), pressure_reply()]);
    let mut driver = Bmp180::new(bus).unwrap();
    driver.set_oversampling(Oversampling::UltraLowPower);
    driver.measure().unwrap();
    assert_eq!(driver.get_temperature(), Some(150));
    assert_eq!(driver.get_pressure(), Some(69964));
}

#[test]
fn failed_pressure_read_keeps_the_previous_reading() {
    // First cycle succeeds; the second faults at the pressure result read.
    // The pressure portion aborts, the error surfaces, and the cached
    // temperature and pressure stay what the first cycle computed.
    let bus = SimBus::new(vec![
        calib_reply(),
        temp_reply(),
        pressure_reply(),
        temp_reply(),
        ScriptedRead::Fault,
    ]);
    let mut driver = Bmp180::new(bus).unwrap();
    driver.set_oversampling(Oversampling::UltraLowPower);
    driver.measure().unwrap();
    assert_eq!(driver.measure(), Err(BusError));
    assert_eq!(driver.get_temperature(), Some(150));
    assert_eq!(driver.get_pressure(), Some(69964));
}

#[test]
fn failed_temperature_read_keeps_no_reading() {
    let bus = SimBus::new(vec![calib_reply(), ScriptedRead::Fault]);
    let mut driver = Bmp180::new(bus).unwrap();
    assert_eq!(driver.measure(), Err(BusError));
    assert_eq!(driver.get_temperature(), None);
    assert_eq!(driver.get_pressure(), None);
}

#[test]
fn successful_measure_replaces_the_previous_reading() {
    // Two successful cycles with different raw temperatures: the second
    // reading overwrites the first, no history is kept.
    let bus = SimBus::new(vec![
        calib_reply(),
        temp_reply(),
        pressure_reply(),
        ScriptedRead::Reply(vec![0x75, 0x30]),
        pressure_reply(),
    ]);
    let mut driver = Bmp180::new(bus).unwrap();
    driver.set_oversampling(Oversampling::UltraLowPower);
    driver.measure().unwrap();
    let first = driver.get_temperature().unwrap();
    driver.measure().unwrap();
    let second = driver.get_temperature().unwrap();
    assert_eq!(first, 150);
    // Raw count 0x7530 is a warmer conversion: 31.3 degrees Celsius.
    assert_eq!(second, 313);
}
