//! A synthetic container and a full verified decode pass over it.
//!
//! A script — a sequence of [`ScriptStep`]s — stands for what the demuxer
//! and the codec decoder of a real pipeline would produce: packets tagged
//! with a track id, each carrying the outcome its decode would have, and
//! demuxer-level conditions. Running out of steps is the end of the
//! stream. The whole pass is specified by the interpreter [`run_model`],
//! and [`Decoder::decode`] is proved to compute exactly that.

use vstd::prelude::*;
use crate::pipeline::{
    Decoder, DecodeOutcome, DemuxControl, Model, Status, StopReason, stop_of,
};

verus! {

/// One synthetic packet: the track id the demuxer tagged it with, and the
/// outcome the codec decoder would produce for it. The outcome of a packet
/// whose track is not the selected one is never looked at.
#[derive(Debug)]
pub struct ScriptedPacket {
    pub track: u32,
    pub outcome: DecodeOutcome,
}

/// One step of a synthetic decode pass, in stream order.
#[derive(Debug)]
pub enum ScriptStep {
    /// The demuxer yields a packet.
    Packet(ScriptedPacket),
    /// The demuxer fails unrecoverably.
    DemuxFatal,
    /// The demuxer reports a changed track list.
    DemuxReset,
}

/// What one step does to the state of a running pass: a packet of another
/// track is discarded untouched; a packet of the selected track is decoded
/// and its outcome applied; a demuxer-level condition stops the pass.
pub open spec fn step_model(m: Model, ev: ScriptStep) -> Model {
    match ev {
        ScriptStep::Packet(p) => {
            if p.track != m.selected {
                m
            } else {
                match p.outcome {
                    DecodeOutcome::Decoded(s) => (Model { buf: m.buf + s@, ..m }),
                    DecodeOutcome::IoError => m,
                    DecodeOutcome::DataError => m,
                    DecodeOutcome::Fatal => (Model {
                        status: Status::Stopped(StopReason::FatalError),
                        ..m
                    }),
                }
            }
        }
        ScriptStep::DemuxFatal => (Model {
            status: Status::Stopped(stop_of(DemuxControl::Fatal)),
            ..m
        }),
        ScriptStep::DemuxReset => (Model {
            status: Status::Stopped(stop_of(DemuxControl::ResetRequired)),
            ..m
        }),
    }
}

/// A whole pass: steps are consumed in order while the pass is running;
/// a stopped pass consumes nothing further; running out of steps is the
/// end of the stream and stops the pass as exhausted.
pub open spec fn run_model(m: Model, evs: Seq<ScriptStep>) -> Model
    decreases evs.len(),
{
    if !(m.status is Running) {
        m
    } else if evs.len() == 0 {
        Model { status: Status::Stopped(StopReason::Exhausted), ..m }
    } else {
        run_model(step_model(m, evs[0]), evs.drop_first())
    }
}

/// A pass never ends while still running: it consumes steps until a
/// fatal condition stops it or the stream is exhausted.
pub proof fn lemma_pass_always_stops(m: Model, evs: Seq<ScriptStep>)
    ensures
        !(run_model(m, evs).status is Running),
    decreases evs.len(),
{
    if m.status is Running && evs.len() > 0 {
        lemma_pass_always_stops(step_model(m, evs[0]), evs.drop_first());
    }
}

impl Decoder {
    /// Run one full decode pass over a synthetic container, synchronously
    /// to a stop state: exactly the loop of a real pass, with the script
    /// standing in for the demuxer/decoder pair. On a decoder whose last
    /// pass already stopped this is a no-op; the final state is in every
    /// case the one the interpreter [`run_model`] gives.
    pub fn decode(&mut self, script: &Vec<ScriptStep>)
        ensures
            final(self)@ == run_model(old(self)@, script@),
            !(final(self)@.status is Running),
    {
        proof {
            lemma_pass_always_stops(old(self)@, script@);
        }
        let mut i: usize = 0;
        assert(script@.skip(0) =~= script@);
        while i < script.len() && self.is_running()
            invariant
                i <= script@.len(),
                run_model(old(self)@, script@) == run_model(self@, script@.skip(i as int)),
            decreases script@.len() - i,
        {
            assert(script@.skip(i as int)[0] == script@[i as int]);
            assert(script@.skip(i as int).drop_first() =~= script@.skip(i as int + 1));
            let ghost m_i = self@;
            match &script[i] {
                ScriptStep::Packet(p) => {
                    if self.wants_packet(p.track) {
                        self.on_decode_outcome(&p.outcome);
                    }
                }
                ScriptStep::DemuxFatal => {
                    self.on_demux_control(DemuxControl::Fatal);
                }
                ScriptStep::DemuxReset => {
                    self.on_demux_control(DemuxControl::ResetRequired);
                }
            }
            assert(self@ == step_model(m_i, script@[i as int]));
            i = i + 1;
        }
        if self.is_running() {
            self.on_demux_control(DemuxControl::EndOfStream);
            assert(script@.skip(i as int).len() == 0);
        }
    }
}

} // verus!
