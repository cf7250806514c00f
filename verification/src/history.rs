//! The bounded record of recently announced tracks, oldest first.

use crate::track::{TrackInfo, TrackView};
use std::collections::VecDeque;
use vstd::prelude::*;

verus! {

/// How many tracks the history keeps.
pub const HISTORY_CAPACITY: usize = 32;

/// What each track of a sequence holds.
pub open spec fn track_views(tracks: Seq<TrackInfo>) -> Seq<TrackView> {
    tracks.map_values(|t: TrackInfo| t@)
}

/// The last `n` items of a sequence, or all of it when it has fewer.
pub open spec fn keep_last<T>(s: Seq<T>, n: nat) -> Seq<T> {
    if s.len() > n {
        s.skip(s.len() - n)
    } else {
        s
    }
}

/// The history after `track` has been recorded: the track stands last, and
/// the oldest entry makes way where the bound would be exceeded.
pub open spec fn recorded(history: Seq<TrackView>, track: TrackView) -> Seq<TrackView> {
    keep_last(history.push(track), HISTORY_CAPACITY as nat)
}

/// The history after each of `tracks` has been recorded in turn.
pub open spec fn recorded_all(history: Seq<TrackView>, tracks: Seq<TrackView>) -> Seq<TrackView>
    decreases tracks.len(),
{
    if tracks.len() == 0 {
        history
    } else {
        recorded(recorded_all(history, tracks.drop_last()), tracks.last())
    }
}

/// Recording tracks one by one never exceeds the bound, and leaves exactly
/// the most recent entries in the order in which they came: the last
/// `HISTORY_CAPACITY` of the old entries followed by the new ones.
pub proof fn lemma_recorded_all_keeps_latest(history: Seq<TrackView>, tracks: Seq<TrackView>)
    requires
        history.len() <= HISTORY_CAPACITY,
    ensures
        recorded_all(history, tracks) == keep_last(history + tracks, HISTORY_CAPACITY as nat),
        recorded_all(history, tracks).len() <= HISTORY_CAPACITY,
    decreases tracks.len(),
{
    if tracks.len() == 0 {
        assert(history + tracks == history);
    } else {
        let earlier = tracks.drop_last();
        lemma_recorded_all_keeps_latest(history, earlier);
        assert((history + earlier).push(tracks.last()) == history + tracks);
        assert(recorded_all(history, tracks) == keep_last(
            history + tracks,
            HISTORY_CAPACITY as nat,
        ));
    }
}

/// After more tracks than the history holds have been recorded into an
/// empty history, exactly the last `HISTORY_CAPACITY` of them remain, in
/// the order in which they were recorded.
pub proof fn lemma_overfull_history_holds_latest(tracks: Seq<TrackView>)
    requires
        tracks.len() > HISTORY_CAPACITY,
    ensures
        recorded_all(Seq::empty(), tracks) == tracks.skip(tracks.len() - HISTORY_CAPACITY),
        recorded_all(Seq::empty(), tracks).len() == HISTORY_CAPACITY,
{
    lemma_recorded_all_keeps_latest(Seq::empty(), tracks);
    assert(Seq::<TrackView>::empty() + tracks == tracks);
}

/// The recent tracks of one session, in the order in which they arrived,
/// never more than `HISTORY_CAPACITY` of them.
#[derive(Debug)]
pub struct History {
    entries: VecDeque<TrackInfo>,
}

impl View for History {
    type V = Seq<TrackView>;

    /// What the recorded tracks hold, oldest first.
    closed spec fn view(&self) -> Seq<TrackView> {
        track_views(self.entries@)
    }
}

impl History {
    #[verifier::type_invariant]
    spec fn within_bound(self) -> bool {
        self.entries@.len() <= HISTORY_CAPACITY
    }

    /// An empty history.
    pub fn new() -> (h: History)
        ensures
            h@ == Seq::<TrackView>::empty(),
    {
        History { entries: VecDeque::with_capacity(HISTORY_CAPACITY) }
    }

    /// How many tracks are recorded.
    pub fn len(&self) -> (n: usize)
        ensures
            n == self@.len(),
            n <= HISTORY_CAPACITY,
    {
        proof {
            use_type_invariant(self);
        }
        self.entries.len()
    }

    /// The recorded tracks, oldest first.
    pub fn entries(&self) -> (e: &VecDeque<TrackInfo>)
        ensures
            track_views(e@) == self@,
            e@.len() <= HISTORY_CAPACITY,
    {
        proof {
            use_type_invariant(self);
        }
        &self.entries
    }

    /// Records a track as the most recent one. A full history first lets
    /// go of its oldest entry.
    pub fn record(&mut self, track: TrackInfo)
        ensures
            final(self)@ == recorded(old(self)@, track@),
    {
        proof {
            use_type_invariant(&*self);
        }
        let ghost before = self.entries@;
        let mut entries: VecDeque<TrackInfo> = VecDeque::new();
        std::mem::swap(&mut self.entries, &mut entries);
        if entries.len() == HISTORY_CAPACITY {
            entries.pop_front();
        }
        entries.push_back(track);
        proof {
            assert(track_views(before.push(track)) == track_views(before).push(track@));
            if before.len() == HISTORY_CAPACITY {
                assert(entries@ == before.push(track).skip(1));
                assert(track_views(entries@) == track_views(before).push(track@).skip(1));
            }
        }
        self.entries = entries;
    }
}

} // verus!
