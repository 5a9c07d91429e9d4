//! The playback engine: a state machine driving the double-buffered
//! fill/drain cycle.
//!
//! A session moves from `Priming` (one blocking fill of the first buffer
//! before any output) to `Streaming` (the steady cycle: refill the back
//! buffer while the front buffer drains, swap the roles, pace the cycle
//! to the sample rate) and finally to `Drained` (the stream cursor is
//! exhausted, or the caller cancelled). The surrounding application
//! performs the reads, the sink transfers and the sleeps; it reports what
//! happened, and every state change, buffer content and duration is
//! decided and proved here.
//!
//! A refill that misses its deadline, or whose read failed, never exposes
//! stale or partially written audio: the whole back buffer is overwritten
//! with silence before the roles swap.

use crate::audio_format::{
    bytes_per_frame, check_format, format_supported, spec_bytes_per_frame, AudioFormatDescriptor,
    FormatError,
};
use crate::buffer::DoubleBuffer;
use crate::frame::silence_seq;
use crate::gain::gained_seq;
use crate::normalize::normalized_seq;
use crate::timing::{
    expected_fill_time_ms, pacing_delay, spec_expected_fill_time_ms, spec_pacing_delay,
};
use vstd::prelude::*;

verus! {

/// Where the engine stands in a session's life.
#[derive(Clone, Copy, PartialEq, Eq, Structural, Debug)]
pub enum EngineState {
    /// Before any output: the first buffer has not been filled yet.
    Priming,
    /// The steady fill/drain cycle is running.
    Streaming,
    /// Terminal: the stream is exhausted or the caller cancelled.
    Drained,
}

/// The engine's mirror of the frame source's byte positions. The
/// termination condition of a session is `read_position >=
/// end_position`.
#[derive(Clone, Copy, PartialEq, Eq, Structural, Debug)]
pub struct StreamCursor {
    pub read_position: usize,
    pub end_position: usize,
}

/// How many chunk-sized fills still separate the cursor from the end of
/// the stream; the last fill may be short of a full chunk.
pub open spec fn fills_to_drain(read: int, end: int, chunk: int) -> nat
    decreases end - read,
{
    if chunk <= 0 || read >= end {
        0nat
    } else if read + chunk >= end {
        1nat
    } else {
        1nat + fills_to_drain(read + chunk, end, chunk)
    }
}

/// The playback engine of one session. It exclusively owns the double
/// buffer and the session configuration; the frame source and the output
/// sink stay with the caller, which reports their outcomes.
#[derive(Debug)]
pub struct PlaybackEngine {
    /// The session's sample encoding, fixed at open.
    pub fmt: AudioFormatDescriptor,
    /// Whole-number gain applied to every lane of every refill; unity by
    /// default.
    pub gain: u16,
    /// The per-cycle pacing budget and refill timeout, in milliseconds.
    pub expected_fill_time_ms: u64,
    /// Mirror of the frame source's read and end positions, in bytes.
    pub cursor: StreamCursor,
    /// Where the session stands.
    pub state: EngineState,
    /// The two frame buffers and their current roles.
    pub buffers: DoubleBuffer,
}

impl PlaybackEngine {
    /// The structural invariant of an open session: a playable format, a
    /// positive rate, two equally and positively sized buffers whose
    /// chunk fits the machine, and the deadline derived from them.
    pub open spec fn wf(&self) -> bool {
        &&& format_supported(self.fmt)
        &&& self.fmt.sample_rate > 0
        &&& self.buffers.wf()
        &&& self.buffers.size() >= 1
        &&& self.buffers.size() * spec_bytes_per_frame(self.fmt) <= usize::MAX
        &&& self.expected_fill_time_ms == spec_expected_fill_time_ms(
            self.buffers.size() as int,
            self.fmt.sample_rate,
        )
    }

    /// Bytes one fill consumes: one buffer's worth of raw input.
    pub open spec fn spec_chunk_size(&self) -> int {
        self.buffers.size() * spec_bytes_per_frame(self.fmt)
    }

    /// The session's termination condition.
    pub open spec fn spec_exhausted(&self) -> bool {
        self.cursor.read_position >= self.cursor.end_position
    }

    /// The frames a fill of `raw` leaves in a buffer: normalized, then
    /// gained.
    pub open spec fn spec_filled(&self, raw: Seq<u8>) -> Seq<u32> {
        gained_seq(normalized_seq(raw, self.fmt, self.buffers.size() as int), self.gain)
    }

    /// Opens a session: validates the descriptor, derives the deadline
    /// and allocates the zeroed double buffer. Exactly the unsupported
    /// encodings are rejected, before anything is built.
    pub fn new(
        fmt: AudioFormatDescriptor,
        buffer_size: usize,
        gain: u16,
        start_position: usize,
        end_position: usize,
    ) -> (r: Result<PlaybackEngine, FormatError>)
        requires
            fmt.sample_rate > 0,
            1 <= buffer_size,
            buffer_size * 1000 <= u64::MAX,
            buffer_size * 4 <= usize::MAX,
        ensures
            r is Ok <==> format_supported(fmt),
            r matches Err(e) ==> e.bit_depth == fmt.bit_depth && e.channel_count
                == fmt.channel_count,
            r matches Ok(e) ==> ({
                &&& e.wf()
                &&& e.fmt == fmt
                &&& e.gain == gain
                &&& e.state is Priming
                &&& e.cursor.read_position == start_position
                &&& e.cursor.end_position == end_position
                &&& e.buffers.size() == buffer_size
                &&& e.buffers.front_view() == silence_seq(buffer_size as int)
                &&& e.buffers.back_view() == silence_seq(buffer_size as int)
            }),
    {
        if let Err(e) = check_format(fmt) {
            return Err(e);
        }
        proof {
            assert((buffer_size as int) * spec_bytes_per_frame(fmt) <= (buffer_size as int) * 4)
                by (nonlinear_arith)
                requires
                    spec_bytes_per_frame(fmt) <= 4,
                    buffer_size >= 0,
            ;
        }
        Ok(
            PlaybackEngine {
                fmt,
                gain,
                expected_fill_time_ms: expected_fill_time_ms(buffer_size, fmt.sample_rate),
                cursor: StreamCursor { read_position: start_position, end_position },
                state: EngineState::Priming,
                buffers: DoubleBuffer::new(buffer_size),
            },
        )
    }

    /// Bytes the caller must read for one fill.
    pub fn chunk_size(&self) -> (n: usize)
        requires
            self.wf(),
        ensures
            n == self.spec_chunk_size(),
    {
        self.buffers.len() * bytes_per_frame(self.fmt)
    }

    /// Whether the stream cursor has reached the end of the stream: once
    /// true while streaming, the session finishes instead of issuing
    /// another refill.
    pub fn stream_exhausted(&self) -> (r: bool)
        ensures
            r == self.spec_exhausted(),
    {
        self.cursor.read_position >= self.cursor.end_position
    }

    /// The initial synchronous fill of the first buffer, before any
    /// output begins; there is no timeout here. The filled buffer takes
    /// the front role and the session starts streaming.
    pub fn prime(&mut self, raw: &[u8])
        requires
            old(self).wf(),
            old(self).state is Priming,
            raw@.len() == old(self).spec_chunk_size(),
            old(self).cursor.read_position + old(self).spec_chunk_size() <= usize::MAX,
        ensures
            final(self).wf(),
            final(self).state is Streaming,
            final(self).fmt == old(self).fmt,
            final(self).gain == old(self).gain,
            final(self).expected_fill_time_ms == old(self).expected_fill_time_ms,
            final(self).buffers.size() == old(self).buffers.size(),
            final(self).buffers.front_view() == old(self).spec_filled(raw@),
            final(self).buffers.back_view() == old(self).buffers.front_view(),
            final(self).cursor.read_position == old(self).cursor.read_position + old(
                self,
            ).spec_chunk_size(),
            final(self).cursor.end_position == old(self).cursor.end_position,
    {
        let chunk: usize = self.chunk_size();
        // a playable format is part of `wf`, so this fill cannot be refused
        let _ok = self.buffers.fill_back(raw, self.fmt, self.gain);
        self.buffers.swap_roles();
        self.cursor.read_position = self.cursor.read_position + chunk;
        self.state = EngineState::Streaming;
    }

    /// One successful streaming refill: the chunk the caller read within
    /// the deadline is decoded into the back buffer, the roles swap, and
    /// the cursor advances by exactly one chunk - one fewer fill remains
    /// until the stream drains.
    pub fn refill(&mut self, raw: &[u8])
        requires
            old(self).wf(),
            old(self).state is Streaming,
            !old(self).spec_exhausted(),
            raw@.len() == old(self).spec_chunk_size(),
            old(self).cursor.read_position + old(self).spec_chunk_size() <= usize::MAX,
        ensures
            final(self).wf(),
            final(self).state is Streaming,
            final(self).fmt == old(self).fmt,
            final(self).gain == old(self).gain,
            final(self).expected_fill_time_ms == old(self).expected_fill_time_ms,
            final(self).buffers.size() == old(self).buffers.size(),
            final(self).buffers.front_view() == old(self).spec_filled(raw@),
            final(self).buffers.back_view() == old(self).buffers.front_view(),
            final(self).cursor.read_position == old(self).cursor.read_position + old(
                self,
            ).spec_chunk_size(),
            final(self).cursor.end_position == old(self).cursor.end_position,
            fills_to_drain(
                final(self).cursor.read_position as int,
                final(self).cursor.end_position as int,
                final(self).spec_chunk_size(),
            ) + 1 == fills_to_drain(
                old(self).cursor.read_position as int,
                old(self).cursor.end_position as int,
                old(self).spec_chunk_size(),
            ),
    {
        proof {
            let size = old(self).buffers.size();
            let bpf = spec_bytes_per_frame(old(self).fmt);
            assert(size * bpf >= 1) by (nonlinear_arith)
                requires
                    size >= 1,
                    bpf >= 1,
            ;
        }
        let chunk: usize = self.chunk_size();
        // a playable format is part of `wf`, so this fill cannot be refused
        let _ok = self.buffers.fill_back(raw, self.fmt, self.gain);
        self.buffers.swap_roles();
        self.cursor.read_position = self.cursor.read_position + chunk;
    }

    /// The failure policy for a refill that timed out or whose read
    /// failed: the partial result is abandoned, the whole back buffer is
    /// overwritten with silence and only then swapped toward the sink.
    /// The caller reports where the source's cursor actually ended up.
    pub fn substitute_silence(&mut self, new_read_position: usize)
        requires
            old(self).wf(),
            old(self).state is Streaming,
        ensures
            final(self).wf(),
            final(self).state is Streaming,
            final(self).fmt == old(self).fmt,
            final(self).gain == old(self).gain,
            final(self).expected_fill_time_ms == old(self).expected_fill_time_ms,
            final(self).buffers.size() == old(self).buffers.size(),
            final(self).buffers.front_view() == silence_seq(old(self).buffers.size() as int),
            final(self).buffers.back_view() == old(self).buffers.front_view(),
            final(self).cursor.read_position == new_read_position,
            final(self).cursor.end_position == old(self).cursor.end_position,
    {
        self.buffers.silence_back();
        self.buffers.swap_roles();
        self.cursor.read_position = new_read_position;
    }

    /// How long to suspend after a cycle whose work took `elapsed_ms`:
    /// the rest of the budget, or nothing when running behind.
    pub fn pace(&self, elapsed_ms: u64) -> (d: u64)
        ensures
            d == spec_pacing_delay(self.expected_fill_time_ms, elapsed_ms),
    {
        pacing_delay(self.expected_fill_time_ms, elapsed_ms)
    }

    /// The frames of the buffer currently draining: what the caller
    /// hands to the output sink.
    pub fn front(&self) -> (f: &Vec<u32>)
        ensures
            f@ == self.buffers.front_view(),
    {
        self.buffers.front()
    }

    /// The normal end of a session: the cursor is exhausted, no further
    /// cycle is issued. The buffer currently draining is left to finish;
    /// nothing else changes.
    pub fn finish(&mut self)
        requires
            old(self).state is Streaming,
            old(self).spec_exhausted(),
        ensures
            final(self).state is Drained,
            final(self).fmt == old(self).fmt,
            final(self).gain == old(self).gain,
            final(self).expected_fill_time_ms == old(self).expected_fill_time_ms,
            final(self).cursor == old(self).cursor,
            final(self).buffers == old(self).buffers,
    {
        self.state = EngineState::Drained;
    }

    /// Ends the session at the caller's demand, in any state: on a sink
    /// failure the engine cannot proceed, and a cancelled track stops
    /// issuing cycles the same way.
    pub fn cancel(&mut self)
        ensures
            final(self).state is Drained,
            final(self).fmt == old(self).fmt,
            final(self).gain == old(self).gain,
            final(self).expected_fill_time_ms == old(self).expected_fill_time_ms,
            final(self).cursor == old(self).cursor,
            final(self).buffers == old(self).buffers,
    {
        self.state = EngineState::Drained;
    }
}

/// Stepping stone for the termination law: from `k` chunks into a stream
/// of `n` chunks, exactly `n - k` fills remain.
proof fn lemma_fills_from(k: nat, n: nat, chunk: nat)
    requires
        chunk >= 1,
        k <= n,
    ensures
        fills_to_drain((k * chunk) as int, (n * chunk) as int, chunk as int) == n - k,
    decreases n - k,
{
    if k == n {
    } else {
        assert((k + 1) * chunk == k * chunk + chunk) by (nonlinear_arith);
        if k + 1 == n {
        } else {
            assert((k + 1) * chunk < n * chunk) by (nonlinear_arith)
                requires
                    chunk >= 1,
                    k + 1 < n,
            ;
            lemma_fills_from(k + 1, n, chunk);
        }
    }
}

/// Law: a stream holding exactly `n` chunks is drained by exactly `n`
/// fills - the priming fill plus `n - 1` streaming refills - after which
/// the cursor is exhausted and no further storage read is issued. Each
/// fill advances the cursor by one chunk and lowers this count by one;
/// `finish` is taken exactly when it reaches zero.
pub proof fn lemma_session_fill_count(n: nat, chunk: nat)
    requires
        chunk >= 1,
    ensures
        fills_to_drain(0, (n * chunk) as int, chunk as int) == n,
{
    assert(0 * chunk == 0) by (nonlinear_arith);
    lemma_fills_from(0, n, chunk);
}

} // verus!
