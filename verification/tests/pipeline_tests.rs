// End-to-end scenarios for the decode pipeline, run over the synthetic
// container: construction and track selection, the error-recovery policy,
// and the accumulated sample buffer.

use rauditor::pipeline::{ConstructionError, DecodeOutcome, Decoder, Status, StopReason};
use rauditor::script::{ScriptStep, ScriptedPacket};
use rauditor::track::{select_track, TrackInfo};

fn tracks_one_decodable() -> Vec<TrackInfo> {
    vec![
        TrackInfo { id: 1, codec: 0 },
        TrackInfo { id: 2, codec: 0x1001 },
        TrackInfo { id: 3, codec: 0x1002 },
    ]
}

fn frame(samples: &[f32]) -> Vec<u32> {
    samples.iter().map(|s| s.to_bits()).collect()
}

fn packet(track: u32, outcome: DecodeOutcome) -> ScriptStep {
    ScriptStep::Packet(ScriptedPacket { track, outcome })
}

#[test]
fn selects_first_decodable_track_in_order() {
    let tracks = tracks_one_decodable();
    let selected = select_track(&tracks).expect("a decodable track exists");
    // Track 1 has the null codec; track 2 is the first decodable one, and
    // track 3 is never considered even though it is decodable too.
    assert_eq!(selected.id, 2);
    assert_eq!(selected.codec, 0x1001);
}

#[test]
fn selection_ignores_order_of_ids() {
    // The scan goes by descriptor order, not by id.
    let tracks = vec![
        TrackInfo { id: 9, codec: 7 },
        TrackInfo { id: 1, codec: 5 },
    ];
    assert_eq!(select_track(&tracks).unwrap().id, 9);
}

#[test]
fn no_decodable_track_is_a_construction_error() {
    let tracks = vec![
        TrackInfo { id: 1, codec: 0 },
        TrackInfo { id: 2, codec: 0 },
    ];
    assert!(select_track(&tracks).is_none());
    match Decoder::new(&tracks) {
        Err(ConstructionError::NoDecodableTrack) => {}
        _ => panic!("expected NoDecodableTrack"),
    }
}

#[test]
fn empty_track_list_is_a_construction_error() {
    let tracks: Vec<TrackInfo> = Vec::new();
    match Decoder::new(&tracks) {
        Err(ConstructionError::NoDecodableTrack) => {}
        _ => panic!("expected NoDecodableTrack"),
    }
}

#[test]
fn samples_are_empty_before_any_decode() {
    let d = Decoder::new(&tracks_one_decodable()).unwrap();
    assert_eq!(d.get_samples().len(), 0);
    assert_eq!(d.status(), Status::Running);
    assert_eq!(d.track_id(), 2);
}

#[test]
fn clean_pass_accumulates_all_frames_in_order() {
    // Three packets on the selected track producing 10, 10 and 5 samples.
    let f1: Vec<f32> = (0..10).map(|i| i as f32 / 10.0).collect();
    let f2: Vec<f32> = (0..10).map(|i| -(i as f32) / 10.0).collect();
    let f3: Vec<f32> = vec![0.5, -0.5, 0.25, -0.25, 1.0];
    let script = vec![
        packet(2, DecodeOutcome::Decoded(frame(&f1))),
        packet(2, DecodeOutcome::Decoded(frame(&f2))),
        packet(2, DecodeOutcome::Decoded(frame(&f3))),
    ];
    let mut d = Decoder::new(&tracks_one_decodable()).unwrap();
    d.decode(&script);
    let buf = d.get_samples();
    assert_eq!(buf.len(), 25);
    // The first 10 values are frame 1's converted samples, in order.
    for i in 0..10 {
        assert_eq!(f32::from_bits(buf[i]), i as f32 / 10.0);
    }
    assert_eq!(buf[24], 1.0f32.to_bits());
    assert_eq!(d.status(), Status::Stopped(StopReason::Exhausted));
}

#[test]
fn data_error_skips_one_packet_only() {
    let f1 = frame(&(0..10).map(|i| i as f32).collect::<Vec<f32>>());
    let f3 = frame(&[7.0, 8.0, 9.0, 10.0, 11.0]);
    let script = vec![
        packet(2, DecodeOutcome::Decoded(f1.clone())),
        packet(2, DecodeOutcome::DataError),
        packet(2, DecodeOutcome::Decoded(f3.clone())),
    ];
    let mut d = Decoder::new(&tracks_one_decodable()).unwrap();
    d.decode(&script);
    let buf = d.get_samples();
    // 10 + 5: the failing packet contributes nothing.
    assert_eq!(buf.len(), 15);
    assert_eq!(&buf[..10], &f1[..]);
    assert_eq!(&buf[10..], &f3[..]);
    assert_eq!(d.status(), Status::Stopped(StopReason::Exhausted));
}

#[test]
fn io_error_skips_one_packet_only() {
    let script = vec![
        packet(2, DecodeOutcome::IoError),
        packet(2, DecodeOutcome::Decoded(frame(&[1.5, 2.5]))),
    ];
    let mut d = Decoder::new(&tracks_one_decodable()).unwrap();
    d.decode(&script);
    assert_eq!(d.get_samples().len(), 2);
    assert_eq!(d.track_id(), 2);
    assert_eq!(d.status(), Status::Stopped(StopReason::Exhausted));
}

#[test]
fn fatal_decode_error_stops_the_pass() {
    let f1 = frame(&(0..10).map(|i| i as f32).collect::<Vec<f32>>());
    let script = vec![
        packet(2, DecodeOutcome::Decoded(f1.clone())),
        packet(2, DecodeOutcome::Fatal),
        packet(2, DecodeOutcome::Decoded(frame(&[1.0, 2.0, 3.0]))),
    ];
    let mut d = Decoder::new(&tracks_one_decodable()).unwrap();
    d.decode(&script);
    let buf = d.get_samples();
    // Only packet 1's samples: the pass halted before packet 3.
    assert_eq!(buf.len(), 10);
    assert_eq!(&buf[..], &f1[..]);
    assert_eq!(d.status(), Status::Stopped(StopReason::FatalError));
}

#[test]
fn fatal_demux_error_stops_and_keeps_buffer() {
    let script = vec![
        packet(2, DecodeOutcome::Decoded(frame(&[4.0, 5.0]))),
        ScriptStep::DemuxFatal,
        packet(2, DecodeOutcome::Decoded(frame(&[6.0]))),
    ];
    let mut d = Decoder::new(&tracks_one_decodable()).unwrap();
    d.decode(&script);
    assert_eq!(d.get_samples().len(), 2);
    assert_eq!(d.status(), Status::Stopped(StopReason::FatalError));
}

#[test]
fn reset_required_is_surfaced_not_swallowed() {
    let script = vec![
        packet(2, DecodeOutcome::Decoded(frame(&[1.0]))),
        ScriptStep::DemuxReset,
        packet(2, DecodeOutcome::Decoded(frame(&[2.0]))),
    ];
    let mut d = Decoder::new(&tracks_one_decodable()).unwrap();
    d.decode(&script);
    assert_eq!(d.get_samples().len(), 1);
    assert_eq!(d.status(), Status::Stopped(StopReason::ResetRequired));
}

#[test]
fn foreign_packets_are_discarded_unread() {
    // Packets of other tracks never reach the codec decoder: even a fatal
    // outcome on a foreign packet means nothing, and its samples are
    // never accumulated.
    let script = vec![
        packet(3, DecodeOutcome::Decoded(frame(&[9.0, 9.0, 9.0]))),
        packet(3, DecodeOutcome::Fatal),
        packet(2, DecodeOutcome::Decoded(frame(&[1.0, 2.0]))),
        packet(1, DecodeOutcome::DataError),
    ];
    let mut d = Decoder::new(&tracks_one_decodable()).unwrap();
    d.decode(&script);
    let buf = d.get_samples();
    assert_eq!(buf.len(), 2);
    assert_eq!(f32::from_bits(buf[0]), 1.0);
    assert_eq!(f32::from_bits(buf[1]), 2.0);
    assert_eq!(d.status(), Status::Stopped(StopReason::Exhausted));
}

#[test]
fn empty_stream_stops_exhausted() {
    let mut d = Decoder::new(&tracks_one_decodable()).unwrap();
    d.decode(&Vec::new());
    assert_eq!(d.get_samples().len(), 0);
    assert_eq!(d.status(), Status::Stopped(StopReason::Exhausted));
}

#[test]
fn decode_on_a_stopped_decoder_is_a_no_op() {
    let script = vec![packet(2, DecodeOutcome::Decoded(frame(&[1.0, 2.0])))];
    let mut d = Decoder::new(&tracks_one_decodable()).unwrap();
    d.decode(&script);
    assert_eq!(d.get_samples().len(), 2);
    assert_eq!(d.status(), Status::Stopped(StopReason::Exhausted));
    // A second pass consumes nothing and changes nothing.
    d.decode(&script);
    assert_eq!(d.get_samples().len(), 2);
    assert_eq!(d.status(), Status::Stopped(StopReason::Exhausted));
}

#[test]
fn wants_packet_filters_by_selected_track() {
    let mut d = Decoder::new(&tracks_one_decodable()).unwrap();
    assert!(d.wants_packet(2));
    assert!(!d.wants_packet(1));
    assert!(!d.wants_packet(3));
    d.decode(&vec![ScriptStep::DemuxFatal]);
    // A stopped pass wants nothing, not even the selected track.
    assert!(!d.wants_packet(2));
}

#[test]
fn recoverable_fault_leaves_buffer_bit_for_bit() {
    let f1 = frame(&[0.125, -0.125]);
    let mut d = Decoder::new(&tracks_one_decodable()).unwrap();
    d.decode(&vec![
        packet(2, DecodeOutcome::Decoded(f1.clone())),
        packet(2, DecodeOutcome::IoError),
        packet(2, DecodeOutcome::DataError),
    ]);
    // The buffer is exactly as it was before the faulting packets.
    assert_eq!(d.get_samples(), &f1);
    assert_eq!(d.track_id(), 2);
}
