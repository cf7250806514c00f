use listenmoe_meta::payload::{
    artist_text, join_names, parse_track_info, resolve_picture, track_from_payload, track_from_song, Album,
    Artist, Song, SongPayload, ALBUM_COVER_BASE, ARTIST_IMAGE_BASE,
};
use listenmoe_meta::station::Station;
use listenmoe_meta::timestamp::Timestamp;
use listenmoe_meta::TrackInfo;

fn artist(name: Option<&str>, image: Option<&str>) -> Artist {
    Artist { name: name.map(str::to_owned), image: image.map(str::to_owned) }
}

fn song(title: Option<&str>, artists: Vec<Artist>, albums: Vec<Album>, duration: Option<u32>) -> Song {
    Song { title: title.map(str::to_owned), artists, albums, duration }
}

#[test]
fn station_endpoints() {
    assert_eq!(Station::Jpop.stream_url(), "https://listen.moe/stream");
    assert_eq!(Station::Kpop.stream_url(), "https://listen.moe/kpop/stream");
    assert_eq!(Station::Jpop.ws_url(), "wss://listen.moe/gateway_v2");
    assert_eq!(Station::Kpop.ws_url(), "wss://listen.moe/kpop/gateway_v2");
}

#[test]
fn picture_bases() {
    assert_eq!(ALBUM_COVER_BASE, "https://cdn.listen.moe/covers/");
    assert_eq!(ARTIST_IMAGE_BASE, "https://cdn.listen.moe/artists/");
}

#[test]
fn names_are_joined_with_comma_and_space() {
    let artists = vec![artist(Some("A"), None), artist(Some("B"), None), artist(Some("C"), None)];
    assert_eq!(join_names(&artists), "A, B, C");
}

#[test]
fn single_name_has_no_separator() {
    assert_eq!(join_names(&vec![artist(Some("Solo"), None)]), "Solo");
}

#[test]
fn artists_without_a_name_are_passed_over() {
    let artists = vec![
        artist(None, Some("x.png")),
        artist(Some("A"), None),
        artist(None, None),
        artist(Some("B"), None),
    ];
    assert_eq!(join_names(&artists), "A, B");
    assert_eq!(join_names(&vec![artist(None, None)]), "");
    assert_eq!(join_names(&Vec::new()), "");
}

#[test]
fn picture_is_base_followed_by_file_name() {
    assert_eq!(
        resolve_picture(ALBUM_COVER_BASE, &Some("cover.jpg".to_owned())),
        Some("https://cdn.listen.moe/covers/cover.jpg".to_owned())
    );
    assert_eq!(resolve_picture(ALBUM_COVER_BASE, &None), None);
}

#[test]
fn track_takes_all_it_is_given() {
    let s = song(
        Some("T"),
        vec![artist(Some("A"), Some("a.png")), artist(Some("B"), Some("b.png"))],
        vec![Album { image: Some("c.jpg".to_owned()) }, Album { image: Some("d.jpg".to_owned()) }],
        Some(240),
    );
    let start = Timestamp::from_unix(1_704_067_200, 0).unwrap();
    let t: TrackInfo = track_from_song(&s, start);
    assert_eq!(t.artist, "A, B");
    assert_eq!(t.title, "T");
    assert_eq!(t.album_cover.as_deref(), Some("https://cdn.listen.moe/covers/c.jpg"));
    assert_eq!(t.artist_image.as_deref(), Some("https://cdn.listen.moe/artists/a.png"));
    assert_eq!(t.start_time_utc.unix_seconds(), 1_704_067_200);
    assert_eq!(t.start_time_utc.subsec_nanos(), 0);
    assert_eq!(t.duration_secs, 240);
}

#[test]
fn track_falls_back_on_fixed_texts() {
    let s = song(None, Vec::new(), Vec::new(), None);
    let t = track_from_song(&s, Timestamp::epoch());
    assert_eq!(t.artist, "Unknown artist");
    assert_eq!(t.title, "unknown title");
    assert_eq!(t.album_cover, None);
    assert_eq!(t.artist_image, None);
    assert_eq!(t.duration_secs, 0);
}

#[test]
fn pictures_come_from_the_first_entry_only() {
    let s = song(
        Some("T"),
        vec![artist(Some("A"), None), artist(Some("B"), Some("b.png"))],
        vec![Album { image: None }, Album { image: Some("d.jpg".to_owned()) }],
        Some(1),
    );
    let t = track_from_song(&s, Timestamp::epoch());
    assert_eq!(t.album_cover, None);
    assert_eq!(t.artist_image, None);
}

#[test]
fn credited_artists_without_names_give_the_fixed_text() {
    let s = song(Some("T"), vec![artist(None, None)], Vec::new(), None);
    let t = track_from_song(&s, Timestamp::epoch());
    assert_eq!(t.artist, "Unknown artist");
    let s = song(Some("T"), vec![artist(None, None), artist(None, Some("b.png"))], Vec::new(), None);
    let t = track_from_song(&s, Timestamp::epoch());
    assert_eq!(t.artist, "Unknown artist");
}

#[test]
fn nameless_artist_still_gives_its_picture() {
    let payload = SongPayload {
        song: song(Some("T"), vec![artist(None, Some("a.png"))], Vec::new(), None),
        start_time: "2024-01-01T00:00:00Z".to_owned(),
    };
    let t = parse_track_info(&payload).unwrap();
    assert_eq!(t.artist, "Unknown artist");
    assert_eq!(t.artist_image.as_deref(), Some("https://cdn.listen.moe/artists/a.png"));
    assert_eq!(t.title, "T");
    assert_eq!(t.duration_secs, 0);
}

#[test]
fn a_name_that_is_empty_is_still_a_name() {
    let s = song(Some("T"), vec![artist(Some(""), None)], Vec::new(), None);
    let t = track_from_song(&s, Timestamp::epoch());
    assert_eq!(t.artist, "");
    let s = song(Some("T"), vec![artist(Some(""), None), artist(Some("B"), None)], Vec::new(), None);
    let t = track_from_song(&s, Timestamp::epoch());
    assert_eq!(t.artist, ", B");
}

#[test]
fn artist_text_joins_or_falls_back() {
    assert_eq!(artist_text(&Vec::new()), "Unknown artist");
    assert_eq!(artist_text(&vec![artist(None, None)]), "Unknown artist");
    assert_eq!(artist_text(&vec![artist(Some("A"), None)]), "A");
    assert_eq!(
        artist_text(&vec![artist(None, None), artist(Some("A"), None), artist(Some("B"), None)]),
        "A, B"
    );
}

#[test]
fn payload_with_readable_start_becomes_a_track() {
    let payload = SongPayload {
        song: song(
            Some("T"),
            vec![artist(Some("A"), None), artist(Some("B"), None)],
            Vec::new(),
            Some(240),
        ),
        start_time: "2024-01-01T00:00:00Z".to_owned(),
    };
    let t = parse_track_info(&payload).unwrap();
    assert_eq!(t.artist, "A, B");
    assert_eq!(t.title, "T");
    assert_eq!(t.duration_secs, 240);
    assert_eq!(t.start_time_utc.unix_seconds(), 1_704_067_200);
    assert_eq!(t.start_time_utc.subsec_nanos(), 0);
}

#[test]
fn payload_with_fractional_start_keeps_the_fraction() {
    let payload = SongPayload {
        song: song(None, Vec::new(), Vec::new(), None),
        start_time: "2024-01-01T00:00:01.250Z".to_owned(),
    };
    let t = parse_track_info(&payload).unwrap();
    assert_eq!(t.start_time_utc.unix_seconds(), 1_704_067_201);
    assert_eq!(t.start_time_utc.subsec_nanos(), 250_000_000);
}

#[test]
fn payload_with_unreadable_start_is_dropped() {
    let payload = SongPayload {
        song: song(Some("T"), vec![artist(Some("A"), None)], Vec::new(), Some(240)),
        start_time: "yesterday".to_owned(),
    };
    assert!(parse_track_info(&payload).is_none());
}

#[test]
fn payload_without_start_gives_nothing() {
    let payload = SongPayload {
        song: song(Some("T"), Vec::new(), Vec::new(), None),
        start_time: "2024-01-01T00:00:00Z".to_owned(),
    };
    assert!(track_from_payload(&payload, None).is_none());
    let t = track_from_payload(&payload, Some(Timestamp::epoch())).unwrap();
    assert_eq!(t.title, "T");
    assert_eq!(t.start_time_utc.unix_seconds(), 0);
}

#[test]
fn clone_keeps_every_field() {
    let s = song(
        Some("T"),
        vec![artist(Some("A"), Some("a.png"))],
        vec![Album { image: Some("c.jpg".to_owned()) }],
        Some(9),
    );
    let t = track_from_song(&s, Timestamp::from_unix(5, 6).unwrap());
    let c = t.clone();
    assert_eq!(c.artist, t.artist);
    assert_eq!(c.title, t.title);
    assert_eq!(c.album_cover, t.album_cover);
    assert_eq!(c.artist_image, t.artist_image);
    assert_eq!(c.start_time_utc.unix_seconds(), 5);
    assert_eq!(c.start_time_utc.subsec_nanos(), 6);
    assert_eq!(c.duration_secs, 9);
}
