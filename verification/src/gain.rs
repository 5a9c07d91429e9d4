//! The gain stage: a pure, stateless, per-sample transform.
//!
//! Gain scales a sample by a whole-number factor and truncates the product
//! back to the sample's native 16-bit width; no clamping or saturation is
//! applied, so an overflowing product wraps. The default is unity. Low
//! dynamic range 8-bit input is compensated with a fixed boost toward full
//! 16-bit range.

use crate::frame::{spec_left_lane, spec_pack_frame, spec_right_lane};
use crate::frame::{left_lane, pack_frame, right_lane};
use vstd::prelude::*;

verus! {

/// The gain that leaves every sample unchanged; the default.
pub const UNITY_GAIN: u16 = 1;

/// The fixed boost that widens an unsigned 8-bit sample toward full
/// 16-bit range.
pub const EIGHT_BIT_BOOST: u16 = 128;

/// A sample scaled by a whole-number gain, truncated to 16 bits.
pub open spec fn spec_apply_gain(sample: u16, gain: u16) -> u16 {
    ((sample * gain) % 0x10000) as u16
}

/// A frame with the gain applied identically to both lanes.
pub open spec fn spec_gain_frame(f: u32, gain: u16) -> u32 {
    spec_pack_frame(
        spec_apply_gain(spec_left_lane(f), gain),
        spec_apply_gain(spec_right_lane(f), gain),
    )
}

/// A buffer of frames with the gain applied to every lane.
pub open spec fn gained_seq(frames: Seq<u32>, gain: u16) -> Seq<u32> {
    Seq::new(frames.len(), |i: int| spec_gain_frame(frames[i], gain))
}

pub fn apply_gain(sample: u16, gain: u16) -> (r: u16)
    ensures
        r == spec_apply_gain(sample, gain),
{
    proof {
        assert((sample as int) * (gain as int) <= 0xFFFF * 0xFFFF) by (nonlinear_arith)
            requires
                sample <= 0xFFFF,
                gain <= 0xFFFF,
        ;
    }
    ((sample as u32 * gain as u32) % 0x10000) as u16
}

/// Applies the gain to both lanes of every frame in place.
pub fn apply_gain_frames(frames: &mut Vec<u32>, gain: u16)
    ensures
        final(frames)@ == gained_seq(old(frames)@, gain),
{
    let n: usize = frames.len();
    let mut i: usize = 0;
    while i < n
        invariant
            i <= n,
            frames@.len() == n,
            forall|j: int| 0 <= j < i ==> frames@[j] == spec_gain_frame(old(frames)@[j], gain),
            forall|j: int| i <= j < n ==> frames@[j] == old(frames)@[j],
        decreases n - i,
    {
        let f: u32 = frames[i];
        let left: u16 = apply_gain(left_lane(f), gain);
        let right: u16 = apply_gain(right_lane(f), gain);
        frames[i] = pack_frame(left, right);
        i = i + 1;
    }
    proof {
        assert(frames@ =~= gained_seq(old(frames)@, gain));
    }
}

} // verus!
