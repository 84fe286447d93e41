//! Track information shared with the user interface, as plain values.

use vstd::prelude::*;

verus! {

/// A lighter record of one track's metadata, used where only display
/// fields are needed. Numeric tag fields are parsed numbers here; the
/// total duration, when known, is in milliseconds.
#[derive(Clone, Debug)]
pub struct TrackInfo {
    pub album: Option<String>,
    pub disc: Option<u32>,
    pub disc_total: Option<u32>,
    pub track: Option<u32>,
    pub track_total: Option<u32>,
    pub artist: Option<String>,
    pub title: Option<String>,
    pub path: Option<String>,
    pub front_cover: Option<Vec<u8>>,
    pub total_duration: Option<u64>,
}

impl TrackInfo {
    /// A record with every field absent.
    pub fn empty() -> (t: TrackInfo)
        ensures
            t.album is None,
            t.disc is None,
            t.disc_total is None,
            t.track is None,
            t.track_total is None,
            t.artist is None,
            t.title is None,
            t.path is None,
            t.front_cover is None,
            t.total_duration is None,
    {
        TrackInfo {
            album: None,
            disc: None,
            disc_total: None,
            track: None,
            track_total: None,
            artist: None,
            title: None,
            path: None,
            front_cover: None,
            total_duration: None,
        }
    }
}

} // verus!
