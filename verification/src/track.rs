//! The value that describes one playing item and its timing.

use crate::timestamp::Timestamp;
use vstd::prelude::*;

verus! {

/// What a `TrackInfo` says, as plain mathematical values.
pub struct TrackView {
    pub artist: Seq<char>,
    pub title: Seq<char>,
    pub album_cover: Option<Seq<char>>,
    pub artist_image: Option<Seq<char>>,
    /// Start on the live broadcast, in nanoseconds from the Unix epoch.
    pub start: int,
    /// Length in seconds; 0 when unknown.
    pub duration_secs: nat,
}

/// The text an optional string holds.
pub open spec fn text_of(s: Option<String>) -> Option<Seq<char>> {
    match s {
        Some(s) => Some(s@),
        None => None,
    }
}

/// One playing item: who, what, its pictures, when it began on the live
/// broadcast and how long it lasts. Never changed once made.
#[derive(Debug)]
pub struct TrackInfo {
    pub artist: String,
    pub title: String,
    pub album_cover: Option<String>,
    pub artist_image: Option<String>,
    pub start_time_utc: Timestamp,
    pub duration_secs: u32,
}

impl View for TrackInfo {
    type V = TrackView;

    open spec fn view(&self) -> TrackView {
        TrackView {
            artist: self.artist@,
            title: self.title@,
            album_cover: text_of(self.album_cover),
            artist_image: text_of(self.artist_image),
            start: self.start_time_utc@,
            duration_secs: self.duration_secs as nat,
        }
    }
}

/// What a track holds, where there is one.
pub open spec fn view_of(track: Option<TrackInfo>) -> Option<TrackView> {
    match track {
        Some(t) => Some(t@),
        None => None,
    }
}

impl TrackInfo {
    /// Whether this track began before `other`. Tracks are ordered by
    /// their start alone.
    pub fn began_before(&self, other: &TrackInfo) -> (r: bool)
        ensures
            r == (self@.start < other@.start),
    {
        self.start_time_utc.is_before(&other.start_time_utc)
    }
}

/// A copy of an optional string.
pub fn copy_text(s: &Option<String>) -> (r: Option<String>)
    ensures
        r == *s,
{
    match s {
        Some(text) => Some(text.clone()),
        None => None,
    }
}

impl Clone for TrackInfo {
    fn clone(&self) -> (r: Self)
        ensures
            r == *self,
    {
        TrackInfo {
            artist: self.artist.clone(),
            title: self.title.clone(),
            album_cover: copy_text(&self.album_cover),
            artist_image: copy_text(&self.artist_image),
            start_time_utc: self.start_time_utc,
            duration_secs: self.duration_secs,
        }
    }
}

} // verus!
