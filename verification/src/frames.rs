//! Wire format of the fixture's command frames.
//!
//! Every frame starts with the magic byte, followed by an opcode and an
//! opcode-specific payload. Two commands exist: set-color (opcode 0x02,
//! payload R, G, B) and power-off (opcode 0x01, no payload).

use vstd::prelude::*;

verus! {

/// First byte of every command frame.
pub const FRAME_MAGIC: u8 = 0x3C;

/// Opcode of the power-off command.
pub const OPCODE_POWER_OFF: u8 = 0x01;

/// Opcode of the set-color command.
pub const OPCODE_COLOR: u8 = 0x02;

/// The exact bytes of a set-color frame for the given channel values.
pub open spec fn color_frame_bytes(r: u8, g: u8, b: u8) -> Seq<u8> {
    seq![FRAME_MAGIC, OPCODE_COLOR, r, g, b]
}

/// The exact bytes of a power-off frame.
pub open spec fn power_off_frame_bytes() -> Seq<u8> {
    seq![FRAME_MAGIC, OPCODE_POWER_OFF]
}

/// Builds the 5-byte set-color frame `[0x3C, 0x02, R, G, B]`.
pub fn color_frame(r: u8, g: u8, b: u8) -> (frame: Vec<u8>)
    ensures
        frame@ == color_frame_bytes(r, g, b),
{
    let frame: Vec<u8> = vec![FRAME_MAGIC, OPCODE_COLOR, r, g, b];
    proof {
        assert(frame@ =~= color_frame_bytes(r, g, b));
    }
    frame
}

/// Builds the 2-byte power-off frame `[0x3C, 0x01]`.
pub fn power_off_frame() -> (frame: Vec<u8>)
    ensures
        frame@ == power_off_frame_bytes(),
{
    let frame: Vec<u8> = vec![FRAME_MAGIC, OPCODE_POWER_OFF];
    proof {
        assert(frame@ =~= power_off_frame_bytes());
    }
    frame
}

} // verus!
