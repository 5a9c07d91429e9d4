//! The sample normalizer: raw bytes of a known encoding become uniform
//! 32-bit stereo frames.
//!
//! Mono input is duplicated into both lanes; stereo input is interleaved
//! left-first. Unsigned 8-bit samples are widened with the fixed boost;
//! 16-bit samples are little-endian and their two's-complement bit
//! pattern moves into the lane unchanged. Any other encoding is a fatal
//! format error and no output is produced at all.

use crate::audio_format::{
    check_format, format_supported, spec_bytes_per_frame, AudioFormatDescriptor, FormatError,
};
use crate::frame::{pack_frame, spec_pack_frame};
use crate::gain::{apply_gain, spec_apply_gain, EIGHT_BIT_BOOST};
use vstd::prelude::*;

verus! {

/// A 16-bit sample read little-endian from two adjacent raw bytes. The
/// result is the lane's bit pattern; a signed sample keeps its
/// two's-complement representation.
pub open spec fn spec_sample16_le(lo: u8, hi: u8) -> u16 {
    (lo + hi * 0x100) as u16
}

/// An unsigned 8-bit sample widened by the fixed boost.
pub open spec fn spec_boosted(b: u8) -> u16 {
    spec_apply_gain(b as u16, EIGHT_BIT_BOOST)
}

/// The frame at index `i` of the normalized output, for a supported
/// format whose raw chunk is long enough.
pub open spec fn spec_frame_at(raw: Seq<u8>, fmt: AudioFormatDescriptor, i: int) -> u32 {
    if fmt.bit_depth == 8 {
        if fmt.channel_count == 1 {
            let s = spec_boosted(raw[i]);
            spec_pack_frame(s, s)
        } else {
            spec_pack_frame(spec_boosted(raw[2 * i]), spec_boosted(raw[2 * i + 1]))
        }
    } else {
        if fmt.channel_count == 1 {
            let s = spec_sample16_le(raw[2 * i], raw[2 * i + 1]);
            spec_pack_frame(s, s)
        } else {
            spec_pack_frame(
                spec_sample16_le(raw[4 * i], raw[4 * i + 1]),
                spec_sample16_le(raw[4 * i + 2], raw[4 * i + 3]),
            )
        }
    }
}

/// The whole normalized output: `n` frames decoded from `raw`.
pub open spec fn normalized_seq(raw: Seq<u8>, fmt: AudioFormatDescriptor, n: int) -> Seq<u32> {
    Seq::new(n as nat, |i: int| spec_frame_at(raw, fmt, i))
}

/// Reads the little-endian 16-bit sample starting at two raw bytes.
pub fn sample16_le(lo: u8, hi: u8) -> (s: u16)
    ensures
        s == spec_sample16_le(lo, hi),
{
    lo as u16 + hi as u16 * 0x100
}

/// Decodes one raw chunk into exactly `out.len()` uniform frames.
///
/// An unsupported bit depth or channel count is rejected before any
/// element of `out` is touched; a supported chunk always fills every
/// element, so the output length never changes.
pub fn normalize(raw: &[u8], fmt: AudioFormatDescriptor, out: &mut Vec<u32>) -> (r: Result<
    (),
    FormatError,
>)
    requires
        format_supported(fmt) ==> raw@.len() == old(out)@.len() * spec_bytes_per_frame(fmt),
    ensures
        r is Ok <==> format_supported(fmt),
        r is Ok ==> final(out)@ == normalized_seq(raw@, fmt, old(out)@.len() as int),
        r matches Err(e) ==> final(out)@ == old(out)@ && e.bit_depth == fmt.bit_depth
            && e.channel_count == fmt.channel_count,
{
    if let Err(e) = check_format(fmt) {
        return Err(e);
    }
    let n: usize = out.len();
    let raw_len: usize = raw.len();
    let mut i: usize = 0;
    while i < n
        invariant
            i <= n,
            out@.len() == n,
            format_supported(fmt),
            raw@.len() == n * spec_bytes_per_frame(fmt),
            raw@.len() == raw_len,
            forall|j: int| 0 <= j < i ==> out@[j] == spec_frame_at(raw@, fmt, j),
        decreases n - i,
    {
        let f: u32 = if fmt.bit_depth == 8 {
            if fmt.channel_count == 1 {
                let s: u16 = apply_gain(raw[i] as u16, EIGHT_BIT_BOOST);
                pack_frame(s, s)
            } else {
                let left: u16 = apply_gain(raw[2 * i] as u16, EIGHT_BIT_BOOST);
                let right: u16 = apply_gain(raw[2 * i + 1] as u16, EIGHT_BIT_BOOST);
                pack_frame(left, right)
            }
        } else {
            if fmt.channel_count == 1 {
                let s: u16 = sample16_le(raw[2 * i], raw[2 * i + 1]);
                pack_frame(s, s)
            } else {
                let left: u16 = sample16_le(raw[4 * i], raw[4 * i + 1]);
                let right: u16 = sample16_le(raw[4 * i + 2], raw[4 * i + 3]);
                pack_frame(left, right)
            }
        };
        out[i] = f;
        i = i + 1;
    }
    proof {
        assert(out@ =~= normalized_seq(raw@, fmt, n as int));
    }
    Ok(())
}

} // verus!
