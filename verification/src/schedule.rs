//! Which track a listener should see, given how far playback lags behind
//! the live broadcast, and when the next change is due.

use crate::clock::current_time;
use crate::history::track_views;
use crate::timestamp::{lemma_timestamp_representable, representable, Span, Timestamp};
use crate::track::{view_of, TrackInfo, TrackView};
use std::collections::VecDeque;
use vstd::prelude::*;

verus! {

/// The instant the listener is hearing: the current time less the lag. None
/// when that instant lies before the first one that can be held.
pub open spec fn playback_instant(now: int, lag_ms: u64) -> Option<int> {
    if representable(now - lag_ms * 1_000_000) {
        Some(now - lag_ms * 1_000_000)
    } else {
        None
    }
}

/// Whether a track of known length is playing at the instant `at`: `at`
/// lies in the window from its start up to, but not including, its end. A
/// track has no window when its length is unknown or its end cannot be held.
pub open spec fn in_window(track: TrackView, at: int) -> bool {
    &&& track.duration_secs > 0
    &&& representable(track.start + track.duration_secs * 1_000_000_000)
    &&& track.start <= at < track.start + track.duration_secs * 1_000_000_000
}

/// Whether a track has begun by the instant `at`.
pub open spec fn started_by(track: TrackView, at: int) -> bool {
    track.start <= at
}

/// One of the two rules by which a track is picked: the preferred one asks
/// for a window that contains `at`, the fallback only for a start before it.
pub open spec fn rule_holds(track: TrackView, at: int, preferred: bool) -> bool {
    if preferred {
        in_window(track, at)
    } else {
        started_by(track, at)
    }
}

/// Whether `i` is the place of the most recent track for which the rule
/// holds.
pub open spec fn is_last_match(history: Seq<TrackView>, at: int, preferred: bool, i: int) -> bool {
    &&& 0 <= i < history.len()
    &&& rule_holds(history[i], at, preferred)
    &&& forall|j: int| i < j < history.len() ==> !rule_holds(#[trigger] history[j], at, preferred)
}

/// The place of the most recent track for which the rule holds.
pub open spec fn last_match(history: Seq<TrackView>, at: int, preferred: bool) -> Option<int> {
    if exists|i: int| is_last_match(history, at, preferred, i) {
        Some(choose|i: int| is_last_match(history, at, preferred, i))
    } else {
        None
    }
}

/// The track to show at the playback instant `at`: the most recent one
/// whose window contains `at`; failing that, the most recent one that has
/// begun by `at`; failing that, none.
pub open spec fn picked_at(history: Seq<TrackView>, at: int) -> Option<TrackView> {
    match last_match(history, at, true) {
        Some(i) => Some(history[i]),
        None => match last_match(history, at, false) {
            Some(i) => Some(history[i]),
            None => None,
        },
    }
}

/// The track to show when the clock reads `now` and playback lags by
/// `lag_ms` milliseconds.
pub open spec fn picked(history: Seq<TrackView>, now: int, lag_ms: u64) -> Option<TrackView> {
    match playback_instant(now, lag_ms) {
        Some(at) => picked_at(history, at),
        None => None,
    }
}

/// The most recent match is the only place that `is_last_match` accepts.
pub proof fn lemma_last_match_is(history: Seq<TrackView>, at: int, preferred: bool, i: int)
    requires
        is_last_match(history, at, preferred, i),
    ensures
        last_match(history, at, preferred) == Some(i),
{
    let k = choose|k: int| is_last_match(history, at, preferred, k);
    if k < i {
        assert(!rule_holds(history[i], at, preferred));
    }
    if i < k {
        assert(!rule_holds(history[k], at, preferred));
    }
}

/// Where the rule holds for no track, there is no match.
pub proof fn lemma_last_match_none(history: Seq<TrackView>, at: int, preferred: bool)
    requires
        forall|j: int| 0 <= j < history.len() ==> !rule_holds(#[trigger] history[j], at, preferred),
    ensures
        last_match(history, at, preferred) is None,
{
}

/// Whether the rule holds for `track` at the playback instant `at`.
fn rule_holds_for(track: &TrackInfo, at: &Timestamp, preferred: bool) -> (r: bool)
    ensures
        r == rule_holds(track@, at@, preferred),
{
    if !preferred {
        return track.start_time_utc.is_at_or_before(at);
    }
    if track.duration_secs == 0 {
        return false;
    }
    match track.start_time_utc.checked_add_secs(track.duration_secs as u64) {
        Some(end) => track.start_time_utc.is_at_or_before(at) && at.is_before(&end),
        None => false,
    }
}

/// Scans from the most recent track to the oldest for one that meets the
/// rule.
fn find_last_match(history: &VecDeque<TrackInfo>, at: &Timestamp, preferred: bool) -> (r: Option<
    usize,
>)
    ensures
        match r {
            Some(i) => last_match(track_views(history@), at@, preferred) == Some(i as int),
            None => last_match(track_views(history@), at@, preferred) is None,
        },
{
    let ghost views = track_views(history@);
    let mut i: usize = history.len();
    while i > 0
        invariant
            i <= history.len(),
            views == track_views(history@),
            forall|j: int| i <= j < views.len() ==> !rule_holds(#[trigger] views[j], at@, preferred),
        decreases i,
    {
        i -= 1;
        if rule_holds_for(&history[i], at, preferred) {
            proof {
                assert(is_last_match(views, at@, preferred, i as int));
                lemma_last_match_is(views, at@, preferred, i as int);
            }
            return Some(i);
        }
    }
    proof {
        lemma_last_match_none(views, at@, preferred);
    }
    None
}

/// Picks the track to show when the clock reads `now` and playback lags by
/// `lag_ms` milliseconds.
pub fn pick_for_offset(history: &VecDeque<TrackInfo>, now: Timestamp, lag_ms: u64) -> (r: Option<
    TrackInfo,
>)
    ensures
        view_of(r) == picked(track_views(history@), now@, lag_ms),
{
    let at = match now.checked_sub_millis(lag_ms) {
        Some(at) => at,
        None => {
            return None;
        },
    };
    match find_last_match(history, &at, true) {
        Some(i) => {
            return Some(history[i].clone());
        },
        None => {},
    }
    match find_last_match(history, &at, false) {
        Some(i) => Some(history[i].clone()),
        None => None,
    }
}

/// Picks the track to show now, for a playback that lags by `lag_ms`
/// milliseconds. The clock is read once; the result is the pick for that
/// reading.
pub fn pick_track_for_playback(history: &VecDeque<TrackInfo>, lag_ms: u64) -> (r: Option<
    TrackInfo,
>)
    ensures
        exists|now: int|
            representable(now) && view_of(r) == #[trigger] picked(
                track_views(history@),
                now,
                lag_ms,
            ),
{
    let now = current_time();
    pick_for_offset(history, now, lag_ms)
}

/// Whether a track has a window: a known length and an end that can be held.
pub open spec fn has_window(track: TrackView) -> bool {
    track.duration_secs > 0 && representable(track.start + track.duration_secs * 1_000_000_000)
}

/// Whether no two windows of the history share an instant.
pub open spec fn windows_disjoint(history: Seq<TrackView>) -> bool {
    forall|i: int, j: int|
        0 <= i < history.len() && 0 <= j < history.len() && i != j && has_window(
            #[trigger] history[i],
        ) && has_window(#[trigger] history[j]) ==> {
            ||| history[i].start + history[i].duration_secs * 1_000_000_000 <= history[j].start
            ||| history[j].start + history[j].duration_secs * 1_000_000_000 <= history[i].start
        }
}

/// Whether every track began at an instant that can be held.
pub open spec fn starts_representable(history: Seq<TrackView>) -> bool {
    forall|i: int| 0 <= i < history.len() ==> representable((#[trigger] history[i]).start)
}

/// The pick rule, for a history whose windows do not overlap. With `at` the
/// current time less the lag: a track whose window contains `at` is the
/// pick, and there is at most one such track; where no window contains `at`,
/// the pick is the most recent track that began by `at`; where every track
/// begins after `at`, and so for an empty history, there is no pick.
pub proof fn lemma_pick_rule(history: Seq<TrackView>, now: int, lag_ms: u64)
    requires
        windows_disjoint(history),
        starts_representable(history),
        representable(now),
    ensures
        ({
            let at = now - lag_ms * 1_000_000;
            let pick = picked(history, now, lag_ms);
            &&& forall|i: int|
                0 <= i < history.len() && in_window(#[trigger] history[i], at) ==> pick == Some(
                    history[i],
                )
            &&& (forall|i: int| 0 <= i < history.len() ==> !in_window(#[trigger] history[i], at))
                ==> forall|i: int| #[trigger]
                    is_last_match(history, at, false, i) ==> pick == Some(history[i])
            &&& (forall|i: int| 0 <= i < history.len() ==> (#[trigger] history[i]).start > at)
                ==> pick is None
        }),
{
    let at = now - lag_ms * 1_000_000;
    let pick = picked(history, now, lag_ms);
    if playback_instant(now, lag_ms) is None {
        assert forall|i: int| 0 <= i < history.len() implies (#[trigger] history[i]).start
            > at by {
            assert(representable(history[i].start));
        }
    } else {
        assert forall|i: int| 0 <= i < history.len() && in_window(
            #[trigger] history[i],
            at,
        ) implies pick == Some(history[i]) by {
            assert forall|j: int| i < j < history.len() implies !rule_holds(
                #[trigger] history[j],
                at,
                true,
            ) by {
                if in_window(history[j], at) {
                    assert(has_window(history[i]) && has_window(history[j]));
                }
            }
            assert(is_last_match(history, at, true, i));
            lemma_last_match_is(history, at, true, i);
        }
        if forall|i: int| 0 <= i < history.len() ==> !in_window(#[trigger] history[i], at) {
            assert(last_match(history, at, true) is None) by {
                if exists|i: int| is_last_match(history, at, true, i) {
                    let k = choose|i: int| is_last_match(history, at, true, i);
                    assert(in_window(history[k], at));
                }
            }
            assert forall|i: int| #[trigger]
                is_last_match(history, at, false, i) implies pick == Some(history[i]) by {
                lemma_last_match_is(history, at, false, i);
            }
        }
        if forall|i: int| 0 <= i < history.len() ==> (#[trigger] history[i]).start > at {
            assert(last_match(history, at, true) is None) by {
                if exists|i: int| is_last_match(history, at, true, i) {
                    let k = choose|i: int| is_last_match(history, at, true, i);
                    assert(history[k].start > at);
                }
            }
            assert(last_match(history, at, false) is None) by {
                if exists|i: int| is_last_match(history, at, false, i) {
                    let k = choose|i: int| is_last_match(history, at, false, i);
                    assert(history[k].start > at);
                }
            }
        }
    }
}

/// The tracks of a history all began at instants that can be held.
pub proof fn lemma_history_starts_representable(tracks: Seq<TrackInfo>)
    ensures
        starts_representable(track_views(tracks)),
{
    assert forall|i: int| 0 <= i < track_views(tracks).len() implies representable(
        (#[trigger] track_views(tracks)[i]).start,
    ) by {
        lemma_timestamp_representable(tracks[i].start_time_utc);
    }
}

/// The pick rule for a history and a clock reading as they are held: the
/// windows must not overlap, and nothing else is asked.
pub proof fn lemma_pick_rule_holds(tracks: Seq<TrackInfo>, now: Timestamp, lag_ms: u64)
    requires
        windows_disjoint(track_views(tracks)),
    ensures
        ({
            let history = track_views(tracks);
            let at = now@ - lag_ms * 1_000_000;
            let pick = picked(history, now@, lag_ms);
            &&& forall|i: int|
                0 <= i < history.len() && in_window(#[trigger] history[i], at) ==> pick == Some(
                    history[i],
                )
            &&& (forall|i: int| 0 <= i < history.len() ==> !in_window(#[trigger] history[i], at))
                ==> forall|i: int| #[trigger]
                    is_last_match(history, at, false, i) ==> pick == Some(history[i])
            &&& (forall|i: int| 0 <= i < history.len() ==> (#[trigger] history[i]).start > at)
                ==> pick is None
        }),
{
    lemma_history_starts_representable(tracks);
    lemma_timestamp_representable(now);
    lemma_pick_rule(track_views(tracks), now@, lag_ms);
}

/// Whether `i` is the place of the future track that begins first: it
/// begins after `at`, no future track begins before it, and of those that
/// begin with it, it stands first.
pub open spec fn is_earliest_future(history: Seq<TrackView>, at: int, i: int) -> bool {
    &&& 0 <= i < history.len()
    &&& history[i].start > at
    &&& forall|j: int|
        0 <= j < history.len() && (#[trigger] history[j]).start > at ==> {
            ||| history[i].start < history[j].start
            ||| (history[i].start == history[j].start && i <= j)
        }
}

/// The place of the track that begins first after the instant `at`.
pub open spec fn earliest_future_at(history: Seq<TrackView>, at: int) -> Option<int> {
    if exists|i: int| is_earliest_future(history, at, i) {
        Some(choose|i: int| is_earliest_future(history, at, i))
    } else {
        None
    }
}

/// The next track due when the clock reads `now` and playback lags by
/// `lag_ms` milliseconds: among the tracks that begin after the playback
/// instant, the one that begins first. None when the playback instant
/// cannot be held.
pub open spec fn next_due(history: Seq<TrackView>, now: int, lag_ms: u64) -> Option<TrackView> {
    match playback_instant(now, lag_ms) {
        Some(at) => match earliest_future_at(history, at) {
            Some(i) => Some(history[i]),
            None => None,
        },
        None => None,
    }
}

/// The earliest future track is the only place that `is_earliest_future`
/// accepts.
pub proof fn lemma_earliest_future_is(history: Seq<TrackView>, at: int, i: int)
    requires
        is_earliest_future(history, at, i),
    ensures
        earliest_future_at(history, at) == Some(i),
{
    let k = choose|k: int| is_earliest_future(history, at, k);
    assert(history[i].start > at && history[k].start > at);
}

/// Where no track begins after `at`, none is due.
pub proof fn lemma_earliest_future_none(history: Seq<TrackView>, at: int)
    requires
        forall|j: int| 0 <= j < history.len() ==> (#[trigger] history[j]).start <= at,
    ensures
        earliest_future_at(history, at) is None,
{
}

/// Finds the track that begins first after the playback instant, for a
/// clock that reads `now` and a playback that lags by `lag_ms` milliseconds.
pub fn earliest_future(history: &VecDeque<TrackInfo>, now: Timestamp, lag_ms: u64) -> (r: Option<
    TrackInfo,
>)
    ensures
        view_of(r) == next_due(track_views(history@), now@, lag_ms),
{
    let at = match now.checked_sub_millis(lag_ms) {
        Some(at) => at,
        None => {
            return None;
        },
    };
    let ghost views = track_views(history@);
    let mut best: Option<usize> = None;
    let mut i: usize = 0;
    while i < history.len()
        invariant
            i <= history.len(),
            views == track_views(history@),
            match best {
                Some(b) => {
                    &&& b < i
                    &&& views[b as int].start > at@
                    &&& forall|j: int|
                        0 <= j < i && (#[trigger] views[j]).start > at@ ==> {
                            ||| views[b as int].start < views[j].start
                            ||| (views[b as int].start == views[j].start && b <= j)
                        }
                },
                None => forall|j: int| 0 <= j < i ==> (#[trigger] views[j]).start <= at@,
            },
        decreases history.len() - i,
    {
        if at.is_before(&history[i].start_time_utc) {
            let closer = match best {
                Some(b) => history[i].began_before(&history[b]),
                None => true,
            };
            if closer {
                best = Some(i);
            }
        }
        i += 1;
    }
    match best {
        Some(b) => {
            proof {
                assert(is_earliest_future(views, at@, b as int));
                lemma_earliest_future_is(views, at@, b as int);
            }
            Some(history[b].clone())
        },
        None => {
            proof {
                lemma_earliest_future_none(views, at@);
            }
            None
        },
    }
}

/// The instant at which a track that began at `start` on the live
/// broadcast reaches a listener whose playback lags by `lag_ms`
/// milliseconds: the start plus the lag. None when that instant cannot be
/// held.
pub open spec fn switch_target(start: int, lag_ms: u64) -> Option<int> {
    if representable(start + lag_ms * 1_000_000) {
        Some(start + lag_ms * 1_000_000)
    } else {
        None
    }
}

/// Whether a switch to `track` can be armed: whether the instant at which
/// it would be due can be held. A switch that cannot be armed is never
/// scheduled and never fires.
pub open spec fn can_arm(track: TrackView, lag_ms: u64) -> bool {
    switch_target(track.start, lag_ms) is Some
}

/// How long a switch has to wait when the clock reads `now`, in
/// nanoseconds: until its target, and not at all when the target has
/// passed. None when there is no target, and so no switch.
pub open spec fn wait_nanos(start: int, lag_ms: u64, now: int) -> Option<int> {
    match switch_target(start, lag_ms) {
        Some(target) => Some(
            if now <= target {
                target - now
            } else {
                0
            },
        ),
        None => None,
    }
}

/// The length of a span in nanoseconds, where there is one.
pub open spec fn span_nanos(span: Option<Span>) -> Option<int> {
    match span {
        Some(span) => Some(span@),
        None => None,
    }
}

/// Tells whether a switch to `track` can be armed.
pub fn can_schedule(track: &TrackInfo, lag_ms: u64) -> (r: bool)
    ensures
        r == can_arm(track@, lag_ms),
{
    track.start_time_utc.checked_add_millis(lag_ms).is_some()
}

/// How long a switch to `track` has to wait when the clock reads `now`, or
/// `None` when the switch cannot be armed: then nothing is to be waited
/// for and nothing is to be sent.
pub fn switch_wait(track: &TrackInfo, lag_ms: u64, now: Timestamp) -> (wait: Option<Span>)
    ensures
        span_nanos(wait) == wait_nanos(track@.start, lag_ms, now@),
        wait matches Some(span) ==> span.nanos < 1_000_000_000,
{
    match track.start_time_utc.checked_add_millis(lag_ms) {
        Some(target) => match now.span_until(&target) {
            Some(wait) => Some(wait),
            None => Some(Span { secs: 0, nanos: 0 }),
        },
        None => None,
    }
}

/// How long a switch to `track` has to wait from now on, or `None` when
/// the switch cannot be armed. Whether it can does not depend on the
/// clock.
pub fn switch_wait_from_now(track: &TrackInfo, lag_ms: u64) -> (wait: Option<Span>)
    ensures
        wait is Some <==> can_arm(track@, lag_ms),
        wait matches Some(span) ==> span.nanos < 1_000_000_000,
        exists|now: int|
            representable(now) && span_nanos(wait) == #[trigger] wait_nanos(
                track@.start,
                lag_ms,
                now,
            ),
{
    let now = current_time();
    switch_wait(track, lag_ms, now)
}

} // verus!
