use desk_control::codec::{decode_height, encode_command, raw_reading, DeskCommand, OFFSET_TICKS, TICKS_PER_UNIT};

#[test]
fn raw_reading_is_big_endian() {
    assert_eq!(raw_reading(0x07, 0xD0), 2000);
    assert_eq!(raw_reading(0x00, 0x01), 1);
    assert_eq!(raw_reading(0x01, 0x00), 256);
    assert_eq!(raw_reading(0xFF, 0xFF), 65535);
}

#[test]
fn decode_height_of_raw_2000() {
    let h = decode_height(0x07, 0xD0);
    assert_eq!(h, 30_441_952);
    let units = h as f64 / TICKS_PER_UNIT as f64;
    assert!((units - (2000.0 / 43.22 + 24.16)).abs() < 1e-9);
    assert!((units - 70.45).abs() < 0.05);
}

#[test]
fn decode_height_edges() {
    assert_eq!(decode_height(0, 0), OFFSET_TICKS);
    assert_eq!(decode_height(0xFF, 0xFF), 65535 * 10000 + 10_441_952);
    let units = decode_height(0, 0) as f64 / TICKS_PER_UNIT as f64;
    assert!((units - 24.16).abs() < 1e-9);
}

#[test]
fn decode_height_is_monotone() {
    let mut prev = decode_height(0, 0);
    for raw in 1u32..=65535 {
        let h = decode_height((raw >> 8) as u8, (raw & 0xFF) as u8);
        assert!(h > prev);
        prev = h;
    }
}

#[test]
fn command_frames_are_fixed() {
    assert_eq!(encode_command(DeskCommand::MoveUp), [0x02, 0x01, 0x00, 0x00, 0xAA, 0xAD]);
    assert_eq!(encode_command(DeskCommand::MoveDown), [0x01, 0x01, 0x00, 0x00, 0xAA, 0xE9]);
    assert_eq!(encode_command(DeskCommand::Stop), [0x09, 0x01, 0x00, 0x00, 0xA8, 0x89]);
    assert_eq!(encode_command(DeskCommand::GetHeight), [0x08, 0x01, 0x00, 0x00, 0xA9, 0x75]);
}

#[test]
fn command_frames_are_deterministic_and_distinct() {
    let all = [DeskCommand::MoveUp, DeskCommand::MoveDown, DeskCommand::Stop, DeskCommand::GetHeight];
    for a in all {
        assert_eq!(encode_command(a), encode_command(a));
        for b in all {
            if a != b {
                assert_ne!(encode_command(a), encode_command(b));
            }
        }
    }
}
