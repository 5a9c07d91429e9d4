//! The uniform output frame: one 32-bit word holding two 16-bit lanes.
//!
//! Every supported input encoding normalizes into this format, the only
//! one the output peripheral accepts: the left channel in the high 16
//! bits, the right channel in the low 16 bits.

use vstd::prelude::*;

verus! {

/// The all-zero frame emitted in place of late or invalid audio data.
pub const SILENCE: u32 = 0;

/// Packs the left lane into the high 16 bits and the right lane into the
/// low 16 bits of one frame.
pub open spec fn spec_pack_frame(left: u16, right: u16) -> u32 {
    ((left as u32) << 16u32) | (right as u32)
}

/// The high 16 bits of a frame: its left channel.
pub open spec fn spec_left_lane(f: u32) -> u16 {
    (f >> 16u32) as u16
}

/// The low 16 bits of a frame: its right channel.
pub open spec fn spec_right_lane(f: u32) -> u16 {
    (f & 0xFFFFu32) as u16
}

/// A buffer of silence: `len` all-zero frames.
pub open spec fn silence_seq(len: int) -> Seq<u32> {
    Seq::new(len as nat, |i: int| SILENCE)
}

pub fn pack_frame(left: u16, right: u16) -> (f: u32)
    ensures
        f == spec_pack_frame(left, right),
{
    ((left as u32) << 16) | (right as u32)
}

pub fn left_lane(f: u32) -> (s: u16)
    ensures
        s == spec_left_lane(f),
{
    (f >> 16) as u16
}

pub fn right_lane(f: u32) -> (s: u16)
    ensures
        s == spec_right_lane(f),
{
    (f & 0xFFFF) as u16
}

} // verus!
