//! A real-time double-buffered audio streaming engine.
//!
//! The library turns a byte stream of 8- or 16-bit PCM audio, mono or
//! stereo, into a steady cadence of fixed-size buffers of uniform 32-bit
//! stereo frames, the only format the output peripheral accepts. The
//! playback engine owns two equally sized buffers whose front/back roles
//! swap each cycle, enforces a per-cycle deadline derived from the sample
//! rate, and substitutes silence when the storage source cannot keep up.
//!
//! The surrounding application performs the actual reads, the transfer to
//! the output peripheral and the sleeps; every decision in between - how
//! bytes become frames, when a cycle ends, when the stream is drained and
//! how long to pause - is made here and verified.

pub mod audio_format;
pub mod engine;
pub mod frame;
pub mod gain;
pub mod normalize;
pub mod buffer;
pub mod timing;
pub mod timesource;
