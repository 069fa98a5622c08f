//! Tests of the conversion sequencer and the oversampling tables.

use bmp180::error::BusError;
use bmp180::oversampling::Oversampling;
use bmp180::sequence::{
    decode_raw_pressure, decode_raw_temperature, read_raw_pressure, read_raw_temperature,
};
use bmp180::sim::{ScriptedRead, SimBus};

const LEVELS: [Oversampling; 4] = [
    Oversampling::UltraLowPower,
    Oversampling::Standard,
    Oversampling::HighResolution,
    Oversampling::UltraHighResolution,
];

#[test]
fn delays_match_datasheet_table() {
    assert_eq!(Oversampling::UltraLowPower.conversion_delay_ms(), 5);
    assert_eq!(Oversampling::Standard.conversion_delay_ms(), 8);
    assert_eq!(Oversampling::HighResolution.conversion_delay_ms(), 14);
    assert_eq!(Oversampling::UltraHighResolution.conversion_delay_ms(), 26);
}

#[test]
fn delays_are_distinct_and_strictly_increasing() {
    for i in 0..LEVELS.len() {
        for j in (i + 1)..LEVELS.len() {
            let earlier = LEVELS[i].conversion_delay_ms();
            let later = LEVELS[j].conversion_delay_ms();
            assert!(earlier < later, "level {} vs {}", i, j);
        }
    }
}

#[test]
fn pressure_commands_encode_the_level() {
    assert_eq!(Oversampling::UltraLowPower.pressure_command(), 0x34);
    assert_eq!(Oversampling::Standard.pressure_command(), 0x74);
    assert_eq!(Oversampling::HighResolution.pressure_command(), 0xB4);
    assert_eq!(Oversampling::UltraHighResolution.pressure_command(), 0xF4);
    for level in LEVELS {
        assert_eq!(level.pressure_command(), 0x34 + (level.level() << 6));
    }
}

#[test]
fn raw_temperature_decodes_big_endian() {
    assert_eq!(decode_raw_temperature(0x6C, 0xFA), 27898);
    assert_eq!(decode_raw_temperature(0x00, 0x00), 0);
    assert_eq!(decode_raw_temperature(0xFF, 0xFF), 65535);
}

#[test]
fn raw_pressure_realigns_by_oversampling() {
    // 0x5D2300 = 6103808; divided by 256, 128, 64, 32 as the level rises.
    assert_eq!(
        decode_raw_pressure(0x5D, 0x23, 0x00, Oversampling::UltraLowPower),
        23843
    );
    assert_eq!(
        decode_raw_pressure(0x5D, 0x23, 0x00, Oversampling::Standard),
        47686
    );
    assert_eq!(
        decode_raw_pressure(0x5D, 0x23, 0x00, Oversampling::HighResolution),
        95372
    );
    assert_eq!(
        decode_raw_pressure(0x5D, 0x23, 0x00, Oversampling::UltraHighResolution),
        190744
    );
    // The dropped low bits truncate, they do not round.
    assert_eq!(
        decode_raw_pressure(0x00, 0x00, 0xFF, Oversampling::UltraLowPower),
        0
    );
}

#[test]
fn temperature_sequence_writes_trigger_then_waits_then_reads() {
    let mut bus = SimBus::new(vec![ScriptedRead::Reply(vec![0x6C, 0xFA])]);
    let ut = read_raw_temperature(&mut bus).unwrap();
    assert_eq!(ut, 27898);
    assert_eq!(bus.writes.len(), 1);
    assert_eq!(bus.writes[0].0, 0x77);
    assert_eq!(bus.writes[0].1, vec![0xF4, 0x2E]);
    assert_eq!(bus.delays, vec![5]);
}

#[test]
fn pressure_sequence_uses_the_levels_command_and_delay() {
    let mut bus = SimBus::new(vec![ScriptedRead::Reply(vec![0x5D, 0x23, 0x00])]);
    let up = read_raw_pressure(&mut bus, Oversampling::UltraHighResolution).unwrap();
    assert_eq!(up, 190744);
    assert_eq!(bus.writes.len(), 1);
    assert_eq!(bus.writes[0].0, 0x77);
    assert_eq!(bus.writes[0].1, vec![0xF4, 0xF4]);
    assert_eq!(bus.delays, vec![26]);
}

#[test]
fn faulted_read_aborts_the_temperature_sequence() {
    let mut bus = SimBus::new(vec![ScriptedRead::Fault]);
    assert_eq!(read_raw_temperature(&mut bus), Err(BusError));
}

#[test]
fn short_reply_is_a_bus_error() {
    // The device answering one byte where two were requested is a transport
    // failure, never a partial reading.
    let mut bus = SimBus::new(vec![ScriptedRead::Reply(vec![0x6C])]);
    assert_eq!(read_raw_temperature(&mut bus), Err(BusError));
}

#[test]
fn faulted_trigger_write_aborts_the_sequence() {
    let mut bus = SimBus::with_write_script(
        vec![ScriptedRead::Reply(vec![0x6C, 0xFA])],
        vec![false],
    );
    assert_eq!(read_raw_temperature(&mut bus), Err(BusError));
    // The failed trigger never reaches the wait or the result read.
    assert_eq!(bus.delays.len(), 0);
    assert_eq!(bus.read_script.len(), 1);
}
