//! Tests of calibration decoding and sentinel rejection.

use bmp180::calibration::CalibrationData;
use bmp180::error::Error;

/// The 22 calibration bytes of the datasheet's worked example, big-endian.
fn datasheet_block() -> Vec<u8> {
    vec![
        0x01, 0x98, // AC1 = 408
        0xFF, 0xB8, // AC2 = -72
        0xC7, 0xD1, // AC3 = -14383
        0x7F, 0xE5, // AC4 = 32741
        0x7F, 0xF5, // AC5 = 32757
        0x5A, 0x71, // AC6 = 23153
        0x18, 0x2E, // B1 = 6190
        0x00, 0x04, // B2 = 4
        0x80, 0x00, // MB = -32768
        0xDD, 0xF9, // MC = -8711
        0x0B, 0x34, // MD = 2868
    ]
}

#[test]
fn decodes_datasheet_block() {
    let c = CalibrationData::from_bytes(&datasheet_block()).unwrap();
    assert_eq!(c.ac1, 408);
    assert_eq!(c.ac2, -72);
    assert_eq!(c.ac3, -14383);
    assert_eq!(c.ac4, 32741);
    assert_eq!(c.ac5, 32757);
    assert_eq!(c.ac6, 23153);
    assert_eq!(c.b1, 6190);
    assert_eq!(c.b2, 4);
    assert_eq!(c.mb, -32768);
    assert_eq!(c.mc, -8711);
    assert_eq!(c.md, 2868);
}

#[test]
fn rejects_all_zero_block() {
    let bytes: Vec<u8> = vec![0x00; 22];
    let r = CalibrationData::from_bytes(&bytes);
    assert_eq!(r, Err(Error::InvalidCalibration));
}

#[test]
fn rejects_all_ones_block() {
    let bytes: Vec<u8> = vec![0xFF; 22];
    let r = CalibrationData::from_bytes(&bytes);
    assert_eq!(r, Err(Error::InvalidCalibration));
}

#[test]
fn accepts_block_with_a_single_nonzero_word() {
    // One coefficient differing from the sentinel pattern is enough to make
    // the block valid: the rejection is of the two exact patterns only.
    let mut bytes: Vec<u8> = vec![0x00; 22];
    bytes[1] = 0x05;
    let c = CalibrationData::from_bytes(&bytes).unwrap();
    assert_eq!(c.ac1, 5);
    assert_eq!(c.md, 0);
}

#[test]
fn signed_and_unsigned_extremes_decode_exactly() {
    // AC1 = 0x8000 is the most negative signed word; AC4 = 0xFFFF is the
    // largest unsigned word; the block is far from both sentinels.
    let bytes: Vec<u8> = vec![
        0x80, 0x00, // AC1 = -32768
        0x7F, 0xFF, // AC2 = 32767
        0x00, 0x01, // AC3 = 1
        0xFF, 0xFF, // AC4 = 65535
        0x00, 0x00, // AC5 = 0
        0x12, 0x34, // AC6 = 0x1234
        0xFF, 0xFF, // B1 = -1
        0x00, 0x80, // B2 = 128
        0x55, 0xAA, // MB = 0x55AA
        0xAA, 0x55, // MC = -21931
        0x00, 0xFF, // MD = 255
    ];
    let c = CalibrationData::from_bytes(&bytes).unwrap();
    assert_eq!(c.ac1, -32768);
    assert_eq!(c.ac2, 32767);
    assert_eq!(c.ac3, 1);
    assert_eq!(c.ac4, 65535);
    assert_eq!(c.ac5, 0);
    assert_eq!(c.ac6, 0x1234);
    assert_eq!(c.b1, -1);
    assert_eq!(c.b2, 128);
    assert_eq!(c.mb, 0x55AA);
    assert_eq!(c.mc, -21931);
    assert_eq!(c.md, 255);
}
