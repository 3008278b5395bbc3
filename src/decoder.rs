//! Turns raw notification payloads of the desk into typed events.
use vstd::prelude::*;

use crate::codec::{decode_height, height_ticks, raw_of};

verus! {

/// What the desk reports. Heights are in ticks (see `codec`).
#[derive(Clone, Copy, Debug, PartialEq, Eq, Structural)]
pub enum DeskEvent {
    StartMoving,
    StartMovingUp,
    StartMovingDown,
    MovingEnd(u32),
    HeightMoving(u32),
    HeightStatic(u32),
}

/// The height carried in bytes 2 and 3 of a frame.
pub open spec fn frame_height(s: Seq<u8>) -> u32
    recommends
        s.len() >= 4,
{
    height_ticks(raw_of(s[2], s[3])) as u32
}

/// Whether a frame matches a row of the opcode table.
pub open spec fn is_known_frame(s: Seq<u8>) -> bool {
    s.len() >= 4 && (s[0] == 0x0B || s[0] == 0x02 || s[0] == 0x01 || s[0] == 0x09 || (s[0]
        == 0x08 && (s[1] == 0x01 || s[1] == 0x06)))
}

/// The event a frame stands for; short or unknown frames stand for none.
pub open spec fn decoded_event(s: Seq<u8>) -> Option<DeskEvent> {
    if s.len() < 4 {
        None
    } else if s[0] == 0x0B {
        Some(DeskEvent::StartMoving)
    } else if s[0] == 0x02 {
        Some(DeskEvent::StartMovingUp)
    } else if s[0] == 0x01 {
        Some(DeskEvent::StartMovingDown)
    } else if s[0] == 0x09 {
        Some(DeskEvent::MovingEnd(frame_height(s)))
    } else if s[0] == 0x08 && s[1] == 0x01 {
        Some(DeskEvent::HeightMoving(frame_height(s)))
    } else if s[0] == 0x08 && s[1] == 0x06 {
        Some(DeskEvent::HeightStatic(frame_height(s)))
    } else {
        None
    }
}

/// Decodes one notification payload.
pub fn decode_notification(data: &[u8]) -> (r: Option<DeskEvent>)
    ensures
        r == decoded_event(data@),
        r is Some <==> is_known_frame(data@),
{
    if data.len() < 4 {
        return None;
    }
    let (p1, p2, p3, p4) = (data[0], data[1], data[2], data[3]);
    if p1 == 0x0B {
        Some(DeskEvent::StartMoving)
    } else if p1 == 0x02 {
        Some(DeskEvent::StartMovingUp)
    } else if p1 == 0x01 {
        Some(DeskEvent::StartMovingDown)
    } else if p1 == 0x09 {
        Some(DeskEvent::MovingEnd(decode_height(p3, p4)))
    } else if p1 == 0x08 {
        if p2 == 0x01 {
            Some(DeskEvent::HeightMoving(decode_height(p3, p4)))
        } else if p2 == 0x06 {
            Some(DeskEvent::HeightStatic(decode_height(p3, p4)))
        } else {
            None
        }
    } else {
        None
    }
}

/// A frame that matches no row of the opcode table yields no event.
pub proof fn lemma_unknown_frame_ignored(s: Seq<u8>)
    requires
        !is_known_frame(s),
    ensures
        decoded_event(s) is None,
{
}

} // verus!
