use evdev::bits::bit_at;
use evdev::raw::{decode_record, decode_driver_version, encode_record, input_event, TimeVal,
    EVENT_WIRE_SIZE};

fn record(sec: i64, usec: i64, t: u16, c: u16, v: i32) -> input_event {
    input_event { time: TimeVal { tv_sec: sec, tv_usec: usec }, _type: t, code: c, value: v }
}

#[test]
fn encode_then_decode_round_trips() {
    let samples = [
        record(0, 0, 0, 0, 0),
        record(1700000000, 999999, 1, 30, 1),
        record(-1, -2, 0xffff, 0xfffe, -1),
        record(i64::MIN, i64::MAX, 3, 0x3e, i32::MIN),
        record(i64::MAX, i64::MIN, 0x17, 1, i32::MAX),
    ];
    for e in samples.iter() {
        let bytes = encode_record(e);
        assert_eq!(bytes.len(), EVENT_WIRE_SIZE);
        assert_eq!(decode_record(&bytes, 0), *e);
    }
}

#[test]
fn decode_reads_little_endian_fields() {
    let mut bytes = vec![0u8; 24];
    bytes[0] = 0x01;  // tv_sec = 0x0201
    bytes[1] = 0x02;
    bytes[8] = 0x05;  // tv_usec = 5
    bytes[16] = 0x01;  // category = 1 (key)
    bytes[18] = 0x1e;  // sub-code = 30
    bytes[20] = 0xff;  // value = -1
    bytes[21] = 0xff;
    bytes[22] = 0xff;
    bytes[23] = 0xff;
    assert_eq!(decode_record(&bytes, 0), record(0x0201, 5, 1, 30, -1));
}

#[test]
fn decode_honours_the_offset() {
    let mut bytes = vec![0u8; 30];
    bytes[6 + 16] = 0x05;  // category = 5 (switch) for the record at offset 6
    assert_eq!(decode_record(&bytes, 6), record(0, 0, 5, 0, 0));
}

#[test]
fn driver_version_splits_into_three_bytes() {
    assert_eq!(decode_driver_version(0x010203), (1, 2, 3));
    assert_eq!(decode_driver_version(0), (0, 0, 0));
    assert_eq!(decode_driver_version(-1), (0xff, 0xff, 0xff));
}

#[test]
fn bit_at_reads_packed_bits() {
    let buf = [0b0000_0100u8, 0b1000_0000u8];
    assert!(bit_at(&buf, 2));
    assert!(!bit_at(&buf, 3));
    assert!(bit_at(&buf, 15));
    assert!(!bit_at(&buf, 16));
    assert!(!bit_at(&buf, 1000));
}
