//! The per-session sample encoding and its validity check.

use vstd::prelude::*;

verus! {

/// Describes one playback session's sample encoding, as supplied by the
/// file's header parser. It stays fixed for the lifetime of the session.
#[derive(Clone, Copy, PartialEq, Eq, Structural, Debug)]
pub struct AudioFormatDescriptor {
    /// Samples per second; a session requires a positive rate.
    pub sample_rate: u32,
    /// Bits per sample; only 8 and 16 are playable.
    pub bit_depth: u16,
    /// Interleaved channels per frame; only mono and stereo are playable.
    pub channel_count: u16,
}

/// A stream whose encoding the engine structurally cannot play; fatal for
/// the session. Carries the rejected descriptor fields.
#[derive(Clone, Copy, PartialEq, Eq, Structural, Debug)]
pub struct FormatError {
    pub bit_depth: u16,
    pub channel_count: u16,
}

/// The encodings the normalizer accepts: 8- or 16-bit samples, mono or stereo.
pub open spec fn format_supported(fmt: AudioFormatDescriptor) -> bool {
    &&& fmt.bit_depth == 8 || fmt.bit_depth == 16
    &&& fmt.channel_count == 1 || fmt.channel_count == 2
}

/// Bytes of raw input that one output frame consumes.
pub open spec fn spec_bytes_per_frame(fmt: AudioFormatDescriptor) -> int {
    (fmt.bit_depth as int / 8) * (fmt.channel_count as int)
}

pub fn bytes_per_frame(fmt: AudioFormatDescriptor) -> (n: usize)
    requires
        format_supported(fmt),
    ensures
        n == spec_bytes_per_frame(fmt),
        1 <= n <= 4,
{
    ((fmt.bit_depth / 8) * fmt.channel_count) as usize
}

/// Screens a descriptor before a session begins; exactly the unsupported
/// encodings are rejected.
pub fn check_format(fmt: AudioFormatDescriptor) -> (r: Result<(), FormatError>)
    ensures
        r is Ok <==> format_supported(fmt),
        r matches Err(e) ==> e.bit_depth == fmt.bit_depth && e.channel_count == fmt.channel_count,
{
    if (fmt.bit_depth == 8 || fmt.bit_depth == 16) && (fmt.channel_count == 1
        || fmt.channel_count == 2) {
        Ok(())
    } else {
        Err(FormatError { bit_depth: fmt.bit_depth, channel_count: fmt.channel_count })
    }
}

} // verus!
