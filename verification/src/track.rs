//! Track metadata as plain values.
//!
//! A track is an immutable record of what the metadata reader found in an
//! audio file. Paths and tag values are carried as strings; the total
//! duration, when known, is carried in milliseconds.

use vstd::prelude::*;

verus! {

/// Metadata of one audio file. Equality of interest is by `path`.
#[derive(Clone, Debug, PartialEq, Eq)]
pub struct Track {
    pub path: String,
    pub modified: Option<String>,
    pub title: Option<String>,
    pub artist: Option<String>,
    pub genre: Option<String>,
    pub album: Option<String>,
    pub album_artist: Option<String>,
    /// Total duration in milliseconds, when the decoder reports one.
    pub duration: Option<u64>,
    pub disc: Option<String>,
    pub disc_total: Option<String>,
    pub track: Option<String>,
    pub track_total: Option<String>,
    pub cover: Option<Vec<u8>>,
}

impl Track {
    /// A track known only by its path, every tag field absent.
    pub fn from_path(path: String) -> (t: Track)
        ensures
            t.path == path,
            t.modified is None,
            t.title is None,
            t.artist is None,
            t.genre is None,
            t.album is None,
            t.album_artist is None,
            t.duration is None,
            t.disc is None,
            t.disc_total is None,
            t.track is None,
            t.track_total is None,
            t.cover is None,
    {
        Track {
            path,
            modified: None,
            title: None,
            artist: None,
            genre: None,
            album: None,
            album_artist: None,
            duration: None,
            disc: None,
            disc_total: None,
            track: None,
            track_total: None,
            cover: None,
        }
    }

    /// Whether two tracks refer to the same file.
    pub fn same_path(&self, other: &Track) -> (r: bool)
        ensures
            r == (self.path@ == other.path@),
    {
        self.path == other.path
    }
}

/// The file extensions the library scanner accepts as audio files.
pub fn is_supported_audio_extension(ext: &str) -> (r: bool)
    ensures
        r == (ext@ == "flac"@ || ext@ == "mp3"@ || ext@ == "wav"@),
{
    let owned = ext.to_owned();
    owned == "flac".to_owned() || owned == "mp3".to_owned() || owned == "wav".to_owned()
}

} // verus!
