use listenmoe_meta::generation::{fire_if_current, may_fire, ticket_after};
use listenmoe_meta::history::{History, HISTORY_CAPACITY};
use listenmoe_meta::schedule::{
    can_schedule, earliest_future, pick_for_offset, pick_track_for_playback, switch_wait,
    switch_wait_from_now,
};
use listenmoe_meta::timestamp::{Span, Timestamp};
use listenmoe_meta::TrackInfo;
use std::collections::VecDeque;

fn at(secs: i64) -> Timestamp {
    Timestamp::from_unix(secs, 0).unwrap()
}

fn track(title: &str, start: i64, duration: u32) -> TrackInfo {
    TrackInfo {
        artist: "artist".to_owned(),
        title: title.to_owned(),
        album_cover: None,
        artist_image: None,
        start_time_utc: at(start),
        duration_secs: duration,
    }
}

fn deque(tracks: Vec<TrackInfo>) -> VecDeque<TrackInfo> {
    tracks.into_iter().collect()
}

fn title(t: Option<TrackInfo>) -> Option<String> {
    t.map(|t| t.title)
}

fn titles(h: &History) -> Vec<String> {
    h.entries().iter().map(|t| t.title.clone()).collect()
}

#[test]
fn history_starts_empty() {
    let h = History::new();
    assert_eq!(h.len(), 0);
    assert!(h.entries().is_empty());
}

#[test]
fn history_keeps_arrival_order() {
    let mut h = History::new();
    h.record(track("a", 10, 0));
    h.record(track("b", 5, 0));
    h.record(track("c", 20, 0));
    assert_eq!(titles(&h), vec!["a", "b", "c"]);
}

#[test]
fn history_holds_exactly_its_capacity() {
    assert_eq!(HISTORY_CAPACITY, 32);
    let mut h = History::new();
    for i in 0..32 {
        h.record(track(&format!("t{i}"), i, 0));
    }
    assert_eq!(h.len(), 32);
    assert_eq!(titles(&h)[0], "t0");
    h.record(track("t32", 32, 0));
    assert_eq!(h.len(), 32);
    assert_eq!(titles(&h)[0], "t1");
    assert_eq!(titles(&h)[31], "t32");
}

#[test]
fn history_keeps_the_most_recent_after_many_inserts() {
    let mut h = History::new();
    for i in 0..100 {
        h.record(track(&format!("t{i}"), i, 0));
        assert!(h.len() <= 32);
    }
    let expected: Vec<String> = (68..100).map(|i| format!("t{i}")).collect();
    assert_eq!(titles(&h), expected);
}

#[test]
fn pick_prefers_the_window_that_contains_playback() {
    let h = deque(vec![track("a", 100, 50), track("b", 150, 50), track("c", 200, 50)]);
    // playback is at 1000 - 830 = 170, inside b's window [150, 200)
    assert_eq!(title(pick_for_offset(&h, at(1000), 830_000)), Some("b".to_owned()));
    // window start is included, window end is not
    assert_eq!(title(pick_for_offset(&h, at(1000), 850_000)), Some("b".to_owned()));
    assert_eq!(title(pick_for_offset(&h, at(1000), 800_000)), Some("c".to_owned()));
    assert_eq!(title(pick_for_offset(&h, at(1000), 900_000)), Some("a".to_owned()));
}

#[test]
fn pick_with_no_lag_uses_the_clock_itself() {
    let h = deque(vec![track("a", 100, 50), track("b", 150, 50)]);
    assert_eq!(title(pick_for_offset(&h, at(120), 0)), Some("a".to_owned()));
    assert_eq!(title(pick_for_offset(&h, at(160), 0)), Some("b".to_owned()));
}

#[test]
fn pick_counts_lag_in_milliseconds() {
    let h = deque(vec![track("a", 100, 50), track("b", 150, 50)]);
    let now = Timestamp::from_unix(150, 1_000_000).unwrap();
    // 150.001 s - 1 ms = 150 s: b has just begun
    assert_eq!(title(pick_for_offset(&h, now, 1)), Some("b".to_owned()));
    // 150.001 s - 2 ms = 149.999 s: still a
    assert_eq!(title(pick_for_offset(&h, now, 2)), Some("a".to_owned()));
}

#[test]
fn pick_falls_back_on_the_latest_track_begun() {
    // no window contains 400: the latest track begun by then is chosen
    let h = deque(vec![track("a", 100, 50), track("b", 150, 0), track("c", 500, 50)]);
    assert_eq!(title(pick_for_offset(&h, at(400), 0)), Some("b".to_owned()));
    // unknown lengths only
    let h = deque(vec![track("a", 100, 0), track("b", 150, 0)]);
    assert_eq!(title(pick_for_offset(&h, at(120), 0)), Some("a".to_owned()));
    assert_eq!(title(pick_for_offset(&h, at(150), 0)), Some("b".to_owned()));
}

#[test]
fn pick_prefers_a_window_over_a_later_start() {
    // b began later but has no known length; a's window contains playback
    let h = deque(vec![track("a", 100, 100), track("b", 150, 0)]);
    assert_eq!(title(pick_for_offset(&h, at(160), 0)), Some("a".to_owned()));
}

#[test]
fn pick_scans_from_the_most_recent() {
    // overlapping windows: the most recent one that contains playback wins
    let h = deque(vec![track("a", 100, 100), track("b", 120, 100)]);
    assert_eq!(title(pick_for_offset(&h, at(150), 0)), Some("b".to_owned()));
    // fallback goes by place in the history, not by start
    let h = deque(vec![track("late", 300, 0), track("early", 100, 0)]);
    assert_eq!(title(pick_for_offset(&h, at(400), 0)), Some("early".to_owned()));
}

#[test]
fn pick_finds_nothing_before_every_start() {
    let h = deque(vec![track("a", 100, 50), track("b", 150, 50)]);
    assert_eq!(title(pick_for_offset(&h, at(99), 0)), None);
    assert_eq!(title(pick_for_offset(&h, at(1000), 950_000)), None);
}

#[test]
fn pick_finds_nothing_in_an_empty_history() {
    let h: VecDeque<TrackInfo> = VecDeque::new();
    assert_eq!(title(pick_for_offset(&h, at(1000), 0)), None);
}

#[test]
fn pick_finds_nothing_when_the_lag_reaches_past_the_first_instant() {
    let h = deque(vec![track("a", i64::MIN, 0)]);
    let now = at(i64::MIN + 10);
    assert_eq!(title(pick_for_offset(&h, now, 5_000)), Some("a".to_owned()));
    assert_eq!(title(pick_for_offset(&h, now, 11_000)), None);
    assert_eq!(title(pick_for_offset(&h, now, u64::MAX)), None);
}

#[test]
fn pick_passes_over_a_window_whose_end_cannot_be_held() {
    let h = deque(vec![track("a", i64::MAX - 10, 100)]);
    // the end overflows, so there is no window; the fallback still applies
    assert_eq!(title(pick_for_offset(&h, at(i64::MAX - 5), 0)), Some("a".to_owned()));
    let h = deque(vec![track("a", i64::MAX - 10, 100), track("b", i64::MAX - 8, 0)]);
    assert_eq!(title(pick_for_offset(&h, at(i64::MAX - 5), 0)), Some("b".to_owned()));
}

#[test]
fn pick_may_fall_back_on_a_stale_track() {
    // the track that was playing has rotated out of the history
    let h = deque(vec![track("old", 100, 0)]);
    assert_eq!(title(pick_for_offset(&h, at(1_000_000), 0)), Some("old".to_owned()));
}

#[test]
fn pick_with_the_clock_sees_past_tracks() {
    let h = deque(vec![track("a", 0, 0)]);
    assert_eq!(title(pick_track_for_playback(&h, 0)), Some("a".to_owned()));
    let h = deque(vec![track("future", i64::MAX, 0)]);
    assert_eq!(title(pick_track_for_playback(&h, 0)), None);
}

#[test]
fn earliest_future_is_the_next_to_begin() {
    let h = deque(vec![track("a", 100, 0), track("b", 200, 0), track("c", 300, 0)]);
    assert_eq!(title(earliest_future(&h, at(150), 0)), Some("b".to_owned()));
    assert_eq!(title(earliest_future(&h, at(350), 100_000)), Some("c".to_owned()));
    assert_eq!(title(earliest_future(&h, at(50), 0)), Some("a".to_owned()));
}

#[test]
fn earliest_future_leaves_out_what_has_begun() {
    let h = deque(vec![track("a", 100, 0), track("b", 200, 0)]);
    // a track that begins exactly at the playback instant has begun
    assert_eq!(title(earliest_future(&h, at(200), 0)), None);
    assert_eq!(title(earliest_future(&h, at(100), 0)), Some("b".to_owned()));
    assert_eq!(title(earliest_future(&VecDeque::new(), at(100), 0)), None);
}

#[test]
fn earliest_future_goes_by_start_not_by_place() {
    let h = deque(vec![track("late", 300, 0), track("early", 200, 0), track("tie", 200, 0)]);
    assert_eq!(title(earliest_future(&h, at(100), 0)), Some("early".to_owned()));
}

#[test]
fn earliest_future_is_none_when_the_lag_reaches_past_the_first_instant() {
    let h = deque(vec![track("a", 100, 0)]);
    assert_eq!(title(earliest_future(&h, at(i64::MIN + 1), 2_000)), None);
}

#[test]
fn wait_lasts_until_start_plus_lag() {
    let t = track("a", 1_000, 0);
    assert_eq!(switch_wait(&t, 5_000, at(1_002)), Some(Span { secs: 3, nanos: 0 }));
    assert_eq!(switch_wait(&t, 2_500, at(1_000)), Some(Span { secs: 2, nanos: 500_000_000 }));
    assert_eq!(switch_wait(&t, 0, at(990)), Some(Span { secs: 10, nanos: 0 }));
}

#[test]
fn wait_is_nothing_when_the_time_has_passed() {
    let t = track("a", 1_000, 0);
    assert_eq!(switch_wait(&t, 0, at(1_000)), Some(Span { secs: 0, nanos: 0 }));
    assert_eq!(switch_wait(&t, 5_000, at(2_000)), Some(Span { secs: 0, nanos: 0 }));
}

#[test]
fn no_switch_when_the_target_cannot_be_held() {
    let t = track("a", i64::MAX, 0);
    assert_eq!(switch_wait(&t, 1_000, at(0)), None);
    assert_eq!(switch_wait(&t, 1_000, at(i64::MAX)), None);
    assert_eq!(switch_wait_from_now(&t, 1_000), None);
    assert!(!can_schedule(&t, 1_000));
    // the last instant itself can still be held
    assert!(can_schedule(&t, 999));
    assert_eq!(switch_wait(&t, 999, at(i64::MAX)), Some(Span { secs: 0, nanos: 999_000_000 }));
}

#[test]
fn largest_lag_on_a_present_day_track_can_be_held() {
    let t = track("a", 1_704_067_200, 0);
    assert!(can_schedule(&t, 0));
    assert!(can_schedule(&t, u64::MAX));
    assert!(switch_wait(&t, u64::MAX, at(1_704_067_200)).is_some());
}

#[test]
fn wait_from_now_is_nothing_for_a_past_track() {
    let t = track("a", 0, 0);
    assert_eq!(switch_wait_from_now(&t, 0), Some(Span { secs: 0, nanos: 0 }));
}

#[test]
fn tickets_count_up_and_start_over() {
    assert_eq!(ticket_after(0), 1);
    assert_eq!(ticket_after(41), 42);
    assert_eq!(ticket_after(u64::MAX), 0);
}

#[test]
fn only_the_current_ticket_fires() {
    assert!(may_fire(7, 7));
    assert!(!may_fire(8, 7));
    assert!(!may_fire(6, 7));
}

#[test]
fn overtaken_switch_never_reaches_the_consumer() {
    // schedule, then bump at once: the switch finds its ticket stale
    let counter: u64 = 10;
    let ticket = ticket_after(counter);
    let current = ticket_after(ticket);
    assert!(fire_if_current(track("a", 0, 0), ticket, current).is_none());
    // left alone, it fires
    let fired = fire_if_current(track("a", 0, 0), ticket, ticket);
    assert_eq!(title(fired), Some("a".to_owned()));
}

#[test]
fn last_request_wins() {
    let mut counter: u64 = 0;
    let mut tickets = Vec::new();
    for _ in 0..5 {
        counter = ticket_after(counter);
        tickets.push(counter);
    }
    let firing: Vec<u64> = tickets.iter().copied().filter(|t| may_fire(counter, *t)).collect();
    assert_eq!(firing, vec![5]);
}
