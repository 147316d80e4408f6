//! A verified core for a streaming audio-decode pipeline.
//!
//! The library models the decode loop of an audio player: a demuxer yields
//! packets tagged with a track id, a codec decoder turns packets of the
//! selected track into blocks of interleaved samples, and the loop
//! accumulates those samples into one growing buffer, applying an
//! error-recovery policy along the way. Every decision of the loop is made
//! here and verified; the host binary only performs the surrounding I/O and
//! hands the resulting events back as plain values.
//!
//! Samples are carried as the IEEE 754 bit patterns of 32-bit floats, so
//! that the verified core never touches floating point itself.

pub mod laws;
pub mod pipeline;
pub mod script;
pub mod track;

use vstd::prelude::*;

verus! {

/// The sentinel codec identifier meaning "no known codec": a track that
/// carries it cannot be decoded and is never selected.
pub const CODEC_NULL: u32 = 0;

} // verus!
