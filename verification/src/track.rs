//! Track descriptors and track selection.
//!
//! A container holds one or more tracks, each described by a numeric id and
//! a codec identifier. At open time the pipeline scans the descriptors in
//! their listed order and selects the first one whose codec is known, i.e.
//! not the null sentinel; that track's id is fixed for the life of the
//! decoder and every packet of another track is discarded unread.

use vstd::prelude::*;
use crate::CODEC_NULL;

verus! {

/// One track descriptor: the track's numeric id and its codec identifier.
/// A codec identifier equal to [`CODEC_NULL`] means the codec is unknown
/// and the track cannot be decoded.
#[derive(Clone, Copy, PartialEq, Eq, Structural, Debug)]
pub struct TrackInfo {
    pub id: u32,
    pub codec: u32,
}

/// The first track descriptor, in listed order, whose codec is known;
/// `None` when no track is decodable.
pub open spec fn first_decodable(tracks: Seq<TrackInfo>) -> Option<TrackInfo>
    decreases tracks.len(),
{
    if tracks.len() == 0 {
        None
    } else if tracks[0].codec != CODEC_NULL {
        Some(tracks[0])
    } else {
        first_decodable(tracks.drop_first())
    }
}

/// Select the first decodable track, scanning descriptors strictly in
/// their listed order with no other tie-break.
pub fn select_track(tracks: &Vec<TrackInfo>) -> (r: Option<TrackInfo>)
    ensures
        r == first_decodable(tracks@),
{
    let mut i: usize = 0;
    assert(tracks@.skip(0) =~= tracks@);
    while i < tracks.len()
        invariant
            i <= tracks.len(),
            first_decodable(tracks@) == first_decodable(tracks@.skip(i as int)),
        decreases tracks.len() - i,
    {
        assert(tracks@.skip(i as int)[0] == tracks@[i as int]);
        if tracks[i].codec != CODEC_NULL {
            return Some(tracks[i]);
        }
        assert(tracks@.skip(i as int).drop_first() =~= tracks@.skip(i as int + 1));
        i = i + 1;
    }
    assert(tracks@.skip(i as int).len() == 0);
    None
}

} // verus!
