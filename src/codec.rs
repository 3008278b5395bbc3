//! Height calibration and the fixed command frames of the desk's protocol.
//!
//! Heights are exact: the sensor's calibration is `raw / 43.22 + 24.16`
//! length units, and every such value is a whole number of ticks of
//! `1 / 432200` of a unit (`raw * 10000 + 10441952` ticks).
use vstd::prelude::*;

verus! {

/// Ticks in one length unit.
pub const TICKS_PER_UNIT: u32 = 432200;

/// Ticks added by one step of the raw sensor reading (`1 / 43.22` units).
pub const TICKS_PER_RAW_STEP: u32 = 10000;

/// Ticks of the calibration offset (`24.16` units).
pub const OFFSET_TICKS: u32 = 10441952;

/// Raw sensor readings are big-endian 16-bit values.
pub open spec fn raw_of(high: u8, low: u8) -> nat {
    high as nat * 256 + low as nat
}

/// The calibrated height, in ticks, of a raw sensor reading.
pub open spec fn height_ticks(raw: nat) -> nat {
    raw * 10000 + 10441952
}

/// Reads the raw 16-bit sensor value from its two bytes.
pub fn raw_reading(high: u8, low: u8) -> (r: u16)
    ensures
        r as nat == raw_of(high, low),
{
    let r: u16 = ((high as u16) << 8u16) | (low as u16);
    assert(r == high as u16 * 256 + low as u16) by (bit_vector)
        requires
            r == ((high as u16) << 8u16) | (low as u16),
    ;
    r
}

/// Converts the two bytes of a height reading into a height in ticks.
pub fn decode_height(high: u8, low: u8) -> (r: u32)
    ensures
        r as nat == height_ticks(raw_of(high, low)),
{
    let raw = raw_reading(high, low);
    raw as u32 * TICKS_PER_RAW_STEP + OFFSET_TICKS
}

/// A taller reading never decodes to a lower height.
pub proof fn lemma_height_monotone(high1: u8, low1: u8, high2: u8, low2: u8)
    requires
        raw_of(high1, low1) <= raw_of(high2, low2),
    ensures
        height_ticks(raw_of(high1, low1)) <= height_ticks(raw_of(high2, low2)),
        raw_of(high1, low1) < raw_of(high2, low2) ==> height_ticks(raw_of(high1, low1))
            < height_ticks(raw_of(high2, low2)),
{
}

/// What the controller can ask of the desk.
#[derive(Clone, Copy, Debug, PartialEq, Eq, Structural)]
pub enum DeskCommand {
    MoveUp,
    MoveDown,
    Stop,
    GetHeight,
}

/// The frame of each command: opcode, three fixed bytes, two checksum bytes.
pub open spec fn command_frame(cmd: DeskCommand) -> Seq<u8> {
    match cmd {
        DeskCommand::MoveUp => seq![0x02u8, 0x01, 0x00, 0x00, 0xAA, 0xAD],
        DeskCommand::MoveDown => seq![0x01u8, 0x01, 0x00, 0x00, 0xAA, 0xE9],
        DeskCommand::Stop => seq![0x09u8, 0x01, 0x00, 0x00, 0xA8, 0x89],
        DeskCommand::GetHeight => seq![0x08u8, 0x01, 0x00, 0x00, 0xA9, 0x75],
    }
}

/// The frame written to the desk for a command.
pub fn encode_command(cmd: DeskCommand) -> (r: [u8; 6])
    ensures
        r@ == command_frame(cmd),
{
    let r: [u8; 6] = match cmd {
        DeskCommand::MoveUp => [0x02, 0x01, 0x00, 0x00, 0xAA, 0xAD],
        DeskCommand::MoveDown => [0x01, 0x01, 0x00, 0x00, 0xAA, 0xE9],
        DeskCommand::Stop => [0x09, 0x01, 0x00, 0x00, 0xA8, 0x89],
        DeskCommand::GetHeight => [0x08, 0x01, 0x00, 0x00, 0xA9, 0x75],
    };
    assert(r@ =~= command_frame(cmd));
    r
}

/// Each command has a frame of its own, so the desk can tell them apart.
pub proof fn lemma_frames_distinct(a: DeskCommand, b: DeskCommand)
    requires
        a != b,
    ensures
        command_frame(a) != command_frame(b),
{
    assert(command_frame(a)[0] != command_frame(b)[0]);
}

} // verus!
