//! Cycle timing: the per-session deadline and the pacing of the steady
//! streaming cycle.
//!
//! One buffer of frames plays for `buffer_size * 1000 / sample_rate`
//! milliseconds, so that is both the budget a refill may spend and the
//! nominal duration of a whole cycle. After the work of a cycle, the
//! engine sleeps whatever is left of the budget; when the work ran over,
//! it sleeps nothing and never tries to catch up by skipping.

use vstd::prelude::*;

verus! {

/// The cycle budget in milliseconds: how long one buffer's worth of
/// frames takes to play at the session's sample rate.
pub open spec fn spec_expected_fill_time_ms(buffer_size: int, sample_rate: u32) -> int {
    buffer_size * 1000 / (sample_rate as int)
}

/// What remains of the cycle budget after `elapsed_ms` of work; zero when
/// the cycle is already running behind.
pub open spec fn spec_pacing_delay(expected_ms: u64, elapsed_ms: u64) -> u64 {
    if elapsed_ms < expected_ms {
        (expected_ms - elapsed_ms) as u64
    } else {
        0u64
    }
}

/// Computes the cycle budget once per session, from the format
/// descriptor.
pub fn expected_fill_time_ms(buffer_size: usize, sample_rate: u32) -> (t: u64)
    requires
        sample_rate > 0,
        buffer_size * 1000 <= u64::MAX,
    ensures
        t == spec_expected_fill_time_ms(buffer_size as int, sample_rate),
{
    buffer_size as u64 * 1000 / (sample_rate as u64)
}

/// How long to suspend before the next cycle starts.
pub fn pacing_delay(expected_ms: u64, elapsed_ms: u64) -> (d: u64)
    ensures
        d == spec_pacing_delay(expected_ms, elapsed_ms),
{
    if elapsed_ms < expected_ms {
        expected_ms - elapsed_ms
    } else {
        0
    }
}

/// Law: pacing stretches a cycle exactly to its budget and never
/// shortens it. A cycle whose fill and drain work finished after
/// `elapsed_ms` ends at `elapsed_ms` plus the pacing delay: that is the
/// full budget when the work beat the budget, the work's own duration
/// when it ran over, and never less than the time the work itself took.
pub proof fn lemma_cycle_pacing(expected_ms: u64, elapsed_ms: u64)
    ensures
        elapsed_ms <= expected_ms ==> elapsed_ms + spec_pacing_delay(expected_ms, elapsed_ms)
            == expected_ms,
        elapsed_ms >= expected_ms ==> elapsed_ms + spec_pacing_delay(expected_ms, elapsed_ms)
            == elapsed_ms,
        elapsed_ms + spec_pacing_delay(expected_ms, elapsed_ms) >= elapsed_ms,
{
}

} // verus!
