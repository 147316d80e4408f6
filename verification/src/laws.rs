//! The guarantees of the decode loop, stated and proved over the model.
//!
//! Each lemma here is a statement about [`step_model`] / [`run_model`],
//! the interpreters that [`Decoder::decode`](crate::pipeline::Decoder)
//! is proved to compute, so each holds of every pass the decoder runs.

use vstd::prelude::*;
use crate::pipeline::{DecodeOutcome, Model, Status, StopReason};
use crate::script::{ScriptStep, ScriptedPacket, run_model, step_model};

verus! {

/// A packet whose track id is not the selected one is discarded whole:
/// the state after it is exactly the state before it, whatever its
/// outcome would have been — the codec decoder is never reached.
pub proof fn lemma_foreign_packet_ignored(m: Model, p: ScriptedPacket)
    requires
        p.track != m.selected,
    ensures
        step_model(m, ScriptStep::Packet(p)) == m,
{
}

/// A recoverable per-packet fault — a transient I/O error or a malformed
/// payload — changes nothing: the selected track id, the sample buffer
/// and the running status all stay exactly as they were.
pub proof fn lemma_recoverable_fault_preserves_state(m: Model, p: ScriptedPacket)
    requires
        p.outcome is IoError || p.outcome is DataError,
    ensures
        step_model(m, ScriptStep::Packet(p)) == m,
{
}

/// A stopped pass consumes nothing: whatever events would follow, the
/// state is unchanged. In particular the buffer accumulated up to a fatal
/// error is kept as-is.
pub proof fn lemma_stopped_pass_is_noop(m: Model, evs: Seq<ScriptStep>)
    requires
        !(m.status is Running),
    ensures
        run_model(m, evs) == m,
{
}

/// Over any whole pass the selected track id is constant and the sample
/// buffer is append-only: the buffer before the pass is a prefix of the
/// buffer after it, never reordered or truncated.
pub proof fn lemma_pass_preserves_selected_and_extends_buf(m: Model, evs: Seq<ScriptStep>)
    ensures
        run_model(m, evs).selected == m.selected,
        run_model(m, evs).buf.len() >= m.buf.len(),
        run_model(m, evs).buf.take(m.buf.len() as int) == m.buf,
    decreases evs.len(),
{
    if !(m.status is Running) {
    } else if evs.len() == 0 {
        assert(run_model(m, evs).buf.take(m.buf.len() as int) =~= m.buf);
    } else {
        let m1 = step_model(m, evs[0]);
        lemma_pass_preserves_selected_and_extends_buf(m1, evs.drop_first());
        assert(m1.buf.take(m.buf.len() as int) =~= m.buf);
        assert(run_model(m1, evs.drop_first()).buf.take(m.buf.len() as int) =~= m.buf);
    }
}

/// An event of a running pass that does not stop it: a packet is benign
/// when it is of another track (it is discarded unread) or when its
/// outcome is anything but a fatal error.
pub open spec fn benign_for(selected: u32, ev: ScriptStep) -> bool {
    ev matches ScriptStep::Packet(p) && (p.track != selected || !(p.outcome is Fatal))
}

/// Every event of the sequence is benign for the given selected track.
pub open spec fn benign_only(selected: u32, evs: Seq<ScriptStep>) -> bool {
    forall|i: int| 0 <= i < evs.len() ==> benign_for(selected, #[trigger] evs[i])
}

/// The samples a pass over these events owes the buffer: the frames of
/// the successfully decoded packets of the selected track, concatenated
/// in arrival order.
pub open spec fn decoded_samples(selected: u32, evs: Seq<ScriptStep>) -> Seq<u32>
    decreases evs.len(),
{
    if evs.len() == 0 {
        Seq::empty()
    } else {
        (match evs[0] {
            ScriptStep::Packet(p) => {
                if p.track == selected {
                    match p.outcome {
                        DecodeOutcome::Decoded(s) => s@,
                        _ => Seq::empty(),
                    }
                } else {
                    Seq::empty()
                }
            }
            _ => Seq::empty(),
        }) + decoded_samples(selected, evs.drop_first())
    }
}

/// A pass over a stream with only recoverable per-packet faults runs to
/// the clean end: it stops as exhausted, and the final buffer is the old
/// buffer followed by exactly the decoded frames of the selected track's
/// successful packets, in arrival order.
pub proof fn lemma_clean_pass_accumulates_in_order(m: Model, evs: Seq<ScriptStep>)
    requires
        m.status is Running,
        benign_only(m.selected, evs),
    ensures
        run_model(m, evs).status == Status::Stopped(StopReason::Exhausted),
        run_model(m, evs).buf == m.buf + decoded_samples(m.selected, evs),
    decreases evs.len(),
{
    if evs.len() == 0 {
        assert(m.buf + decoded_samples(m.selected, evs) =~= m.buf);
    } else {
        assert(benign_for(m.selected, evs[0]));
        let m1 = step_model(m, evs[0]);
        let rest = evs.drop_first();
        assert(benign_only(m.selected, rest)) by {
            assert(forall|i: int| 0 <= i < rest.len() ==> #[trigger] rest[i] == evs[i + 1]);
        }
        lemma_clean_pass_accumulates_in_order(m1, rest);
        assert(m1.buf + decoded_samples(m.selected, rest)
            =~= m.buf + decoded_samples(m.selected, evs));
    }
}

/// An event that stops a running pass with a fatal error: an
/// unrecoverable demuxer failure, or a fatal decode error on a packet of
/// the selected track.
pub open spec fn fatal_for(selected: u32, ev: ScriptStep) -> bool {
    ||| ev is DemuxFatal
    ||| ev matches ScriptStep::Packet(p) && p.track == selected && p.outcome is Fatal
}

/// A fatal error stops the pass at once: with only benign events before
/// the fatal one, the pass ends stopped with a fatal error, later events
/// are never consumed, and the final buffer holds exactly what had been
/// decoded before the failing event — nothing of the failing packet, and
/// nothing after it.
pub proof fn lemma_fatal_error_stops_pass(m: Model, evs: Seq<ScriptStep>, k: int)
    requires
        m.status is Running,
        0 <= k < evs.len(),
        benign_only(m.selected, evs.take(k)),
        fatal_for(m.selected, evs[k]),
    ensures
        run_model(m, evs).status == Status::Stopped(StopReason::FatalError),
        run_model(m, evs).buf == m.buf + decoded_samples(m.selected, evs.take(k)),
    decreases k,
{
    if k == 0 {
        let m1 = step_model(m, evs[0]);
        assert(m1.buf == m.buf);
        assert(m1.status == Status::Stopped(StopReason::FatalError));
        lemma_stopped_pass_is_noop(m1, evs.drop_first());
        assert(m.buf + decoded_samples(m.selected, evs.take(0)) =~= m.buf);
    } else {
        assert(evs.take(k)[0] == evs[0]);
        assert(benign_for(m.selected, evs[0]));
        let m1 = step_model(m, evs[0]);
        let rest = evs.drop_first();
        assert(rest.take(k - 1) =~= evs.take(k).drop_first());
        assert(benign_only(m.selected, rest.take(k - 1))) by {
            assert(forall|i: int| 0 <= i < k - 1
                ==> #[trigger] rest.take(k - 1)[i] == evs.take(k)[i + 1]);
        }
        assert(rest[k - 1] == evs[k]);
        lemma_fatal_error_stops_pass(m1, rest, k - 1);
        assert(m1.buf + decoded_samples(m.selected, rest.take(k - 1))
            =~= m.buf + decoded_samples(m.selected, evs.take(k)));
    }
}

} // verus!
