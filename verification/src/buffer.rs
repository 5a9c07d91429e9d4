//! The double buffer: two equally sized arrays of uniform frames whose
//! front and back roles swap each cycle.
//!
//! The front buffer is the one currently draining to the output sink; the
//! back buffer is the one being filled from the frame source. The swap is
//! a role flip, never a copy, so the fill path and the drain path always
//! work on disjoint storage.

use crate::audio_format::{format_supported, spec_bytes_per_frame, AudioFormatDescriptor, FormatError};
use crate::frame::{silence_seq, SILENCE};
use crate::gain::{apply_gain_frames, gained_seq};
use crate::normalize::{normalize, normalized_seq};
use vstd::prelude::*;

verus! {

/// `len` all-zero frames, freshly allocated.
fn silence_vec(len: usize) -> (v: Vec<u32>)
    ensures
        v@ == silence_seq(len as int),
{
    let mut v: Vec<u32> = Vec::new();
    let mut i: usize = 0;
    while i < len
        invariant
            i <= len,
            v@.len() == i,
            forall|j: int| 0 <= j < i ==> v@[j] == SILENCE,
        decreases len - i,
    {
        v.push(SILENCE);
        i = i + 1;
    }
    proof {
        assert(v@ =~= silence_seq(len as int));
    }
    v
}

/// Overwrites every frame with silence, in place.
fn fill_silence(buf: &mut Vec<u32>)
    ensures
        final(buf)@ == silence_seq(old(buf)@.len() as int),
{
    let n: usize = buf.len();
    let mut i: usize = 0;
    while i < n
        invariant
            i <= n,
            buf@.len() == n,
            forall|j: int| 0 <= j < i ==> buf@[j] == SILENCE,
        decreases n - i,
    {
        buf[i] = SILENCE;
        i = i + 1;
    }
    proof {
        assert(buf@ =~= silence_seq(n as int));
    }
}

/// Two fixed-size frame buffers and the flag saying which one currently
/// holds the front role.
#[derive(Debug)]
pub struct DoubleBuffer {
    a: Vec<u32>,
    b: Vec<u32>,
    front_is_a: bool,
}

impl DoubleBuffer {
    /// Both halves hold the same number of frames.
    pub closed spec fn wf(&self) -> bool {
        self.a@.len() == self.b@.len()
    }

    /// Frames per half.
    pub closed spec fn size(&self) -> nat {
        self.a@.len()
    }

    /// The frames of the buffer currently draining to the output sink.
    pub closed spec fn front_view(&self) -> Seq<u32> {
        if self.front_is_a {
            self.a@
        } else {
            self.b@
        }
    }

    /// The frames of the buffer currently being filled.
    pub closed spec fn back_view(&self) -> Seq<u32> {
        if self.front_is_a {
            self.b@
        } else {
            self.a@
        }
    }

    /// Two zeroed buffers of `size` frames each; the session starts with
    /// no stale audio anywhere.
    pub fn new(size: usize) -> (db: DoubleBuffer)
        ensures
            db.wf(),
            db.size() == size,
            db.front_view() == silence_seq(size as int),
            db.back_view() == silence_seq(size as int),
    {
        DoubleBuffer { a: silence_vec(size), b: silence_vec(size), front_is_a: true }
    }

    /// Frames per half.
    pub fn len(&self) -> (n: usize)
        ensures
            n == self.size(),
    {
        self.a.len()
    }

    /// Exchanges the front and back roles: an ownership flip, not a data
    /// copy.
    pub fn swap_roles(&mut self)
        ensures
            final(self).wf() == old(self).wf(),
            final(self).size() == old(self).size(),
            final(self).front_view() == old(self).back_view(),
            final(self).back_view() == old(self).front_view(),
    {
        self.front_is_a = !self.front_is_a;
    }

    /// The buffer currently draining; what the output sink transfers.
    pub fn front(&self) -> (f: &Vec<u32>)
        ensures
            f@ == self.front_view(),
    {
        if self.front_is_a {
            &self.a
        } else {
            &self.b
        }
    }

    /// Decodes one raw chunk into the back buffer through the normalizer,
    /// then runs the gain stage over every frame. The front buffer is
    /// never touched; an unsupported format leaves the back buffer as it
    /// was.
    pub fn fill_back(&mut self, raw: &[u8], fmt: AudioFormatDescriptor, gain: u16) -> (r: Result<
        (),
        FormatError,
    >)
        requires
            old(self).wf(),
            format_supported(fmt) ==> raw@.len() == old(self).size() * spec_bytes_per_frame(fmt),
        ensures
            final(self).wf(),
            final(self).size() == old(self).size(),
            final(self).front_view() == old(self).front_view(),
            r is Ok <==> format_supported(fmt),
            r is Ok ==> final(self).back_view() == gained_seq(
                normalized_seq(raw@, fmt, old(self).size() as int),
                gain,
            ),
            r matches Err(e) ==> final(self).back_view() == old(self).back_view()
                && e.bit_depth == fmt.bit_depth && e.channel_count == fmt.channel_count,
    {
        let r = if self.front_is_a {
            normalize(raw, fmt, &mut self.b)
        } else {
            normalize(raw, fmt, &mut self.a)
        };
        match r {
            Ok(()) => {
                if self.front_is_a {
                    apply_gain_frames(&mut self.b, gain);
                } else {
                    apply_gain_frames(&mut self.a, gain);
                }
                Ok(())
            },
            Err(e) => Err(e),
        }
    }

    /// Overwrites the entire back buffer with silence: the fallback when
    /// a refill timed out or failed, so no stale or partially written
    /// audio is ever exposed.
    pub fn silence_back(&mut self)
        requires
            old(self).wf(),
        ensures
            final(self).wf(),
            final(self).size() == old(self).size(),
            final(self).front_view() == old(self).front_view(),
            final(self).back_view() == silence_seq(old(self).size() as int),
    {
        if self.front_is_a {
            fill_silence(&mut self.b);
        } else {
            fill_silence(&mut self.a);
        }
    }
}

} // verus!
