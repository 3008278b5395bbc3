use desk_control::codec::decode_height;
use desk_control::decoder::{decode_notification, DeskEvent};

#[test]
fn height_static_frame() {
    let e = decode_notification(&[0x08, 0x06, 0x07, 0xD0]);
    assert_eq!(e, Some(DeskEvent::HeightStatic(30_441_952)));
}

#[test]
fn height_moving_frame() {
    let e = decode_notification(&[0x08, 0x01, 0x07, 0xD0]);
    assert_eq!(e, Some(DeskEvent::HeightMoving(30_441_952)));
}

#[test]
fn moving_end_frame() {
    for second in [0x00u8, 0x01, 0x06, 0xFF] {
        let e = decode_notification(&[0x09, second, 0x03, 0x20]);
        assert_eq!(e, Some(DeskEvent::MovingEnd(decode_height(0x03, 0x20))));
    }
}

#[test]
fn start_frames() {
    assert_eq!(decode_notification(&[0x0B, 0, 0, 0]), Some(DeskEvent::StartMoving));
    assert_eq!(decode_notification(&[0x02, 0, 0, 0]), Some(DeskEvent::StartMovingUp));
    assert_eq!(decode_notification(&[0x01, 0, 0, 0]), Some(DeskEvent::StartMovingDown));
}

#[test]
fn longer_frames_are_read_from_the_front() {
    let e = decode_notification(&[0x08, 0x06, 0x00, 0x10, 0xAB, 0xCD]);
    assert_eq!(e, Some(DeskEvent::HeightStatic(decode_height(0x00, 0x10))));
}

#[test]
fn unknown_frames_are_ignored() {
    assert_eq!(decode_notification(&[0x08, 0x02, 0x07, 0xD0]), None);
    assert_eq!(decode_notification(&[0x00, 0x00, 0x00, 0x00]), None);
    assert_eq!(decode_notification(&[0xFF, 0x01, 0x07, 0xD0]), None);
    for first in 0u8..=255 {
        if ![0x0B, 0x02, 0x01, 0x09, 0x08].contains(&first) {
            assert_eq!(decode_notification(&[first, 0x01, 0x02, 0x03]), None);
        }
    }
}

#[test]
fn short_frames_are_ignored() {
    assert_eq!(decode_notification(&[]), None);
    assert_eq!(decode_notification(&[0x0B]), None);
    assert_eq!(decode_notification(&[0x09, 0x00, 0x07]), None);
}
