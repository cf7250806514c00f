//! The payload of a track update as the gateway sends it, and how a
//! `TrackInfo` is made from it.

use crate::time_parse::{
    instant_of, instant_of_reading, parse_rfc3339_system_time, rfc3339_reading,
};
use crate::timestamp::Timestamp;
use crate::track::{text_of, view_of, TrackInfo, TrackView};
use vstd::prelude::*;
use vstd::string::StringExecFns;

verus! {

/// Album covers are file names under this address.
pub const ALBUM_COVER_BASE: &'static str = "https://cdn.listen.moe/covers/";

/// Artist pictures are file names under this address.
pub const ARTIST_IMAGE_BASE: &'static str = "https://cdn.listen.moe/artists/";

/// One credited artist.
#[derive(Debug)]
pub struct Artist {
    pub name: Option<String>,
    pub image: Option<String>,
}

/// One album the song appears on.
#[derive(Debug)]
pub struct Album {
    pub image: Option<String>,
}

/// The song of a track update.
#[derive(Debug)]
pub struct Song {
    pub title: Option<String>,
    pub artists: Vec<Artist>,
    pub albums: Vec<Album>,
    pub duration: Option<u32>,
}

/// The payload of a track update: the song and when it began.
#[derive(Debug)]
pub struct SongPayload {
    pub song: Song,
    pub start_time: String,
}

/// The names of the artists that have one, in order.
pub open spec fn present_names(artists: Seq<Artist>) -> Seq<Seq<char>>
    decreases artists.len(),
{
    if artists.len() == 0 {
        Seq::empty()
    } else {
        let before = present_names(artists.drop_last());
        match artists.last().name {
            Some(name) => before.push(name@),
            None => before,
        }
    }
}

/// The texts one after another with `sep` between neighbours.
pub open spec fn joined(texts: Seq<Seq<char>>, sep: Seq<char>) -> Seq<char>
    decreases texts.len(),
{
    if texts.len() == 0 {
        Seq::empty()
    } else if texts.len() == 1 {
        texts[0]
    } else {
        joined(texts.drop_last(), sep) + sep + texts.last()
    }
}

/// The artist line of a track: a fixed text when no display name is
/// present, be it that no artist is credited or that none of those
/// credited has a name; else the names that are present, separated by a
/// comma and a space.
pub open spec fn artist_line(artists: Seq<Artist>) -> Seq<char> {
    if present_names(artists).len() == 0 {
        "Unknown artist"@
    } else {
        joined(present_names(artists), ", "@)
    }
}

/// The title of a track: a fixed text when the song has none.
pub open spec fn title_line(title: Option<String>) -> Seq<char> {
    match title {
        Some(t) => t@,
        None => "unknown title"@,
    }
}

/// The address of a picture: the base followed by the file name.
pub open spec fn picture_url(base: Seq<char>, file: Option<String>) -> Option<Seq<char>> {
    match file {
        Some(name) => Some(base + name@),
        None => None,
    }
}

/// The cover of the first album, where it has one.
pub open spec fn album_cover_url(albums: Seq<Album>) -> Option<Seq<char>> {
    if albums.len() == 0 {
        None
    } else {
        picture_url(ALBUM_COVER_BASE@, albums[0].image)
    }
}

/// The picture of the first artist, where it has one.
pub open spec fn artist_image_url(artists: Seq<Artist>) -> Option<Seq<char>> {
    if artists.len() == 0 {
        None
    } else {
        picture_url(ARTIST_IMAGE_BASE@, artists[0].image)
    }
}

/// The track that a song which began at `start` stands for.
pub open spec fn track_of_song(song: Song, start: int) -> TrackView {
    TrackView {
        artist: artist_line(song.artists@),
        title: title_line(song.title),
        album_cover: album_cover_url(song.albums@),
        artist_image: artist_image_url(song.artists@),
        start,
        duration_secs: match song.duration {
            Some(secs) => secs as nat,
            None => 0,
        },
    }
}

/// The track a payload stands for once its start time has been read: none
/// when the start time could not be read.
pub open spec fn track_of_payload(payload: SongPayload, start: Option<int>) -> Option<TrackView> {
    match start {
        Some(start) => Some(track_of_song(payload.song, start)),
        None => None,
    }
}

/// Joins the names that are present with a comma and a space.
pub fn join_names(artists: &Vec<Artist>) -> (line: String)
    ensures
        line@ == joined(present_names(artists@), ", "@),
{
    join_present(artists).0
}

/// Makes the artist line: the names that are present, joined, or the
/// fixed text when there is none.
pub fn artist_text(artists: &Vec<Artist>) -> (line: String)
    ensures
        line@ == artist_line(artists@),
{
    let (line, any) = join_present(artists);
    if any {
        line
    } else {
        "Unknown artist".to_owned()
    }
}

/// Joins the names that are present, and tells whether there was any.
fn join_present(artists: &Vec<Artist>) -> (r: (String, bool))
    ensures
        r.0@ == joined(present_names(artists@), ", "@),
        r.1 == (present_names(artists@).len() > 0),
{
    let mut line = String::new();
    let mut any: bool = false;
    let mut i: usize = 0;
    while i < artists.len()
        invariant
            i <= artists.len(),
            any == (present_names(artists@.take(i as int)).len() > 0),
            line@ == joined(present_names(artists@.take(i as int)), ", "@),
        decreases artists.len() - i,
    {
        proof {
            assert(artists@.take(i + 1).drop_last() == artists@.take(i as int));
        }
        let ghost before = present_names(artists@.take(i as int));
        match &artists[i].name {
            Some(name) => {
                proof {
                    assert(before.push(name@).drop_last() == before);
                }
                if any {
                    line.append(", ");
                }
                line.append(name.as_str());
                any = true;
            },
            None => {},
        }
        i += 1;
    }
    proof {
        assert(artists@.take(artists.len() as int) == artists@);
    }
    (line, any)
}

/// The address of a picture under `base`, where a file name is given.
pub fn resolve_picture(base: &str, file: &Option<String>) -> (url: Option<String>)
    ensures
        text_of(url) == picture_url(base@, *file),
{
    match file {
        Some(name) => {
            let mut url = base.to_owned();
            url.append(name.as_str());
            Some(url)
        },
        None => None,
    }
}

/// Makes the track of a song that began at `start`.
pub fn track_from_song(song: &Song, start: Timestamp) -> (track: TrackInfo)
    ensures
        track@ == track_of_song(*song, start@),
{
    let title = match &song.title {
        Some(t) => t.clone(),
        None => "unknown title".to_owned(),
    };
    let artist = artist_text(&song.artists);
    let album_cover = if song.albums.len() == 0 {
        None
    } else {
        resolve_picture(ALBUM_COVER_BASE, &song.albums[0].image)
    };
    let artist_image = if song.artists.len() == 0 {
        None
    } else {
        resolve_picture(ARTIST_IMAGE_BASE, &song.artists[0].image)
    };
    let duration_secs: u32 = match song.duration {
        Some(secs) => secs,
        None => 0,
    };
    TrackInfo { artist, title, album_cover, artist_image, start_time_utc: start, duration_secs }
}

/// Makes the track of a payload whose start time has been read, or nothing
/// when it could not be read: such an update is dropped.
pub fn track_from_payload(payload: &SongPayload, start: Option<Timestamp>) -> (track: Option<
    TrackInfo,
>)
    ensures
        view_of(track) == track_of_payload(*payload, instant_of(start)),
{
    match start {
        Some(start) => Some(track_from_song(&payload.song, start)),
        None => None,
    }
}

/// Reads the start time of a payload and makes its track.
pub fn parse_track_info(payload: &SongPayload) -> (track: Option<TrackInfo>)
    ensures
        view_of(track) == track_of_payload(
            *payload,
            instant_of_reading(rfc3339_reading(payload.start_time@)),
        ),
{
    let start = parse_rfc3339_system_time(payload.start_time.as_str());
    track_from_payload(payload, start)
}

} // verus!
