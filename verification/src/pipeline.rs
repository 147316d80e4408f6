//! The decode loop as a verified state machine.
//!
//! A [`Decoder`] owns the selected track id, the growing sample buffer and
//! the loop status. The host feeds it the events of one decode pass — a
//! packet's track id, the outcome of decoding a packet, or a demuxer-level
//! condition — and the machine applies the error-recovery policy:
//! recoverable per-packet faults are skipped, fatal ones stop the pass,
//! end of stream is the one clean completion.
//!
//! Each sample is the IEEE 754 bit pattern of one interleaved 32-bit float
//! sample; the machine only appends them and never interprets them.

use vstd::prelude::*;
use crate::track::{TrackInfo, first_decodable, select_track};

verus! {

/// Why a decode pass stopped.
#[derive(Clone, Copy, PartialEq, Eq, Structural, Debug)]
pub enum StopReason {
    /// The demuxer reached the end of the stream: the one clean completion.
    Exhausted,
    /// An unrecoverable demuxer or decoder error ended the pass.
    FatalError,
    /// The track list changed mid-stream. Re-selecting a track and
    /// rebuilding the codec decoder is out of scope, so the pass stops
    /// here and the limitation is surfaced through this reason.
    ResetRequired,
}

/// The loop status: still consuming packets, or stopped for a reason.
#[derive(Clone, Copy, PartialEq, Eq, Structural, Debug)]
pub enum Status {
    Running,
    Stopped(StopReason),
}

/// What construction of a decoder can fail with.
#[derive(Clone, Copy, PartialEq, Eq, Structural, Debug)]
pub enum ConstructionError {
    /// The byte source could not be opened at all.
    SourceOpenFailed,
    /// No registered container format recognized the byte source.
    UnsupportedFormat,
    /// No track carries a known codec, so nothing can be decoded.
    NoDecodableTrack,
    /// No registered codec implementation matches the selected track.
    UnsupportedCodec,
}

/// The outcome of asking the codec decoder to decode one packet of the
/// selected track.
#[derive(Debug)]
pub enum DecodeOutcome {
    /// The packet decoded; the payload is the frame's interleaved samples,
    /// each the bit pattern of one 32-bit float, in order.
    Decoded(Vec<u32>),
    /// A transient I/O-level fault: the packet is skipped, the pass goes on.
    IoError,
    /// A malformed payload: the packet is skipped, the pass goes on.
    DataError,
    /// Any other decode error: the pass stops, keeping what was decoded.
    Fatal,
}

/// A demuxer-level condition that ends the current pass.
#[derive(Clone, Copy, PartialEq, Eq, Structural, Debug)]
pub enum DemuxControl {
    /// No more packets: the stream is exhausted.
    EndOfStream,
    /// The track list changed mid-stream; see [`StopReason::ResetRequired`].
    ResetRequired,
    /// Any other demuxer error: unrecoverable.
    Fatal,
}

/// The mathematical state of a decode pass: the selected track id, the
/// samples accumulated so far, and the loop status.
pub struct Model {
    pub selected: u32,
    pub buf: Seq<u32>,
    pub status: Status,
}

/// The stop reason a demuxer-level condition maps to.
pub open spec fn stop_of(ev: DemuxControl) -> StopReason {
    match ev {
        DemuxControl::EndOfStream => StopReason::Exhausted,
        DemuxControl::ResetRequired => StopReason::ResetRequired,
        DemuxControl::Fatal => StopReason::FatalError,
    }
}

/// The decode-pass state machine. It is constructed from the container's
/// track descriptors, holds the selected track id for its whole life, and
/// accumulates decoded samples until the pass stops.
pub struct Decoder {
    track_id: u32,
    sample_buf: Vec<u32>,
    status: Status,
}

impl View for Decoder {
    type V = Model;

    closed spec fn view(&self) -> Model {
        Model {
            selected: self.track_id,
            buf: self.sample_buf@,
            status: self.status,
        }
    }
}

impl Decoder {
    /// Build a decoder for a container with the given track descriptors:
    /// the first track whose codec is known is selected, the sample buffer
    /// starts empty, and the machine is ready to run a pass. Fails with
    /// [`ConstructionError::NoDecodableTrack`] exactly when no descriptor
    /// carries a known codec.
    pub fn new(tracks: &Vec<TrackInfo>) -> (r: Result<Decoder, ConstructionError>)
        ensures
            match r {
                Ok(d) => {
                    &&& first_decodable(tracks@) matches Some(t) && d@.selected == t.id
                    &&& d@.buf =~= Seq::<u32>::empty()
                    &&& d@.status is Running
                },
                Err(e) => {
                    &&& e is NoDecodableTrack
                    &&& first_decodable(tracks@) is None
                },
            },
    {
        match select_track(tracks) {
            Some(t) => Ok(Decoder {
                track_id: t.id,
                sample_buf: Vec::new(),
                status: Status::Running,
            }),
            None => Err(ConstructionError::NoDecodableTrack),
        }
    }

    /// The id of the selected track, constant for the decoder's life.
    pub fn track_id(&self) -> (r: u32)
        ensures
            r == self@.selected,
    {
        self.track_id
    }

    /// The samples accumulated so far, in decode order: each entry is the
    /// bit pattern of one interleaved 32-bit float sample. Before any pass
    /// has decoded a packet this is empty.
    pub fn get_samples(&self) -> (r: &Vec<u32>)
        ensures
            r@ == self@.buf,
    {
        &self.sample_buf
    }

    /// Whether a pass is still consuming packets.
    pub fn is_running(&self) -> (r: bool)
        ensures
            r == (self@.status is Running),
    {
        match self.status {
            Status::Running => true,
            Status::Stopped(_) => false,
        }
    }

    /// The loop status, for the caller to inspect after a pass.
    pub fn status(&self) -> (r: Status)
        ensures
            r == self@.status,
    {
        self.status
    }

    /// Whether the next packet is to be decoded: only while the pass is
    /// running, and only when the packet's track id equals the selected
    /// one. A packet of any other track is discarded without ever
    /// reaching the codec decoder.
    pub fn wants_packet(&self, track: u32) -> (r: bool)
        ensures
            r == (self@.status is Running && track == self@.selected),
    {
        match self.status {
            Status::Running => track == self.track_id,
            Status::Stopped(_) => false,
        }
    }

    /// Apply a demuxer-level condition: the pass stops with the matching
    /// reason; the selected track id and the sample buffer are untouched.
    pub fn on_demux_control(&mut self, ev: DemuxControl)
        requires
            old(self)@.status is Running,
        ensures
            final(self)@ == (Model {
                status: Status::Stopped(stop_of(ev)),
                ..old(self)@
            }),
    {
        match ev {
            DemuxControl::EndOfStream => {
                self.status = Status::Stopped(StopReason::Exhausted);
            }
            DemuxControl::ResetRequired => {
                self.status = Status::Stopped(StopReason::ResetRequired);
            }
            DemuxControl::Fatal => {
                self.status = Status::Stopped(StopReason::FatalError);
            }
        }
    }

    /// Apply the outcome of decoding one packet of the selected track.
    /// A decoded frame's samples are appended, in order, and the pass goes
    /// on; a transient I/O fault or a malformed payload leaves the state
    /// exactly as it was and the pass goes on; any other error stops the
    /// pass, keeping the buffer as it was before the failing packet.
    pub fn on_decode_outcome(&mut self, out: &DecodeOutcome)
        requires
            old(self)@.status is Running,
        ensures
            final(self)@.selected == old(self)@.selected,
            match *out {
                DecodeOutcome::Decoded(s) => {
                    &&& final(self)@.buf == old(self)@.buf + s@
                    &&& final(self)@.status is Running
                },
                DecodeOutcome::IoError => final(self)@ == old(self)@,
                DecodeOutcome::DataError => final(self)@ == old(self)@,
                DecodeOutcome::Fatal => {
                    &&& final(self)@.buf == old(self)@.buf
                    &&& final(self)@.status == Status::Stopped(StopReason::FatalError)
                },
            },
    {
        match out {
            DecodeOutcome::Decoded(s) => {
                let mut j: usize = 0;
                while j < s.len()
                    invariant
                        j <= s.len(),
                        self.track_id == old(self).track_id,
                        self.status == old(self).status,
                        self.sample_buf@ == old(self).sample_buf@ + s@.take(j as int),
                    decreases s.len() - j,
                {
                    self.sample_buf.push(s[j]);
                    assert(s@.take(j as int).push(s@[j as int]) =~= s@.take(j as int + 1));
                    assert(self.sample_buf@ =~= old(self).sample_buf@ + s@.take(j as int + 1));
                    j = j + 1;
                }
                assert(s@.take(s@.len() as int) =~= s@);
            }
            DecodeOutcome::IoError => {}
            DecodeOutcome::DataError => {}
            DecodeOutcome::Fatal => {
                self.status = Status::Stopped(StopReason::FatalError);
            }
        }
    }
}

} // verus!
