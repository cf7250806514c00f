//! The switches that are pending, and which of them may still fire: the
//! bookkeeping behind "the last scheduling request wins", as a model of what
//! the owner of a session does with the actions it is handed.

use crate::controller::{Control, ControlPoll};
use crate::generation::{advanced, lemma_ticket_current_iff_latest};
use crate::schedule::{can_arm, next_due, picked};
use crate::session::{
    control_step, emit_of, is_resume, resume_actions, run, schedule_of, step, ActionView, Event,
    SessionView,
};
use crate::track::TrackView;
use vstd::prelude::*;

verus! {

/// A switch that has been armed and waits for its time.
pub struct PendingSwitch {
    pub track: TrackView,
    pub lag_ms: u64,
    /// The how-manieth request it was: its ticket, before any starting over.
    pub request: nat,
}

/// The requests made so far, and the switches they armed, in order.
pub struct Board {
    /// How many times the generation counter has been advanced.
    pub requests: nat,
    pub pending: Seq<PendingSwitch>,
}

/// Whether the board is in order: no switch was armed by a request that
/// has not been made yet.
pub open spec fn in_order(board: Board) -> bool {
    forall|i: int|
        0 <= i < board.pending.len() ==> (#[trigger] board.pending[i]).request <= board.requests
}

/// The board after one action was carried out. `Invalidate` advances the
/// counter; `Schedule` advances it and arms a switch with the new count;
/// the other actions leave the board alone.
pub open spec fn performed(board: Board, action: ActionView) -> Board {
    match action {
        ActionView::Invalidate => Board { requests: board.requests + 1, ..board },
        ActionView::Schedule { track, lag_ms } => Board {
            requests: board.requests + 1,
            pending: board.pending.push(
                PendingSwitch { track, lag_ms, request: board.requests + 1 },
            ),
        },
        ActionView::Emit(_) => board,
        ActionView::SendHeartbeat => board,
    }
}

/// The board after each of `actions` was carried out in turn.
pub open spec fn performed_all(board: Board, actions: Seq<ActionView>) -> Board
    decreases actions.len(),
{
    if actions.len() == 0 {
        board
    } else {
        performed(performed_all(board, actions.drop_last()), actions.last())
    }
}

/// Whether the switch at place `i` is still the latest request: whether no
/// request was made after the one that armed it.
pub open spec fn is_latest(board: Board, i: int) -> bool {
    0 <= i < board.pending.len() && board.pending[i].request == board.requests
}

/// Whether the switch at place `i` hands its track over when it wakes, for
/// a counter that started at `start`: whether its ticket is what the
/// counter reads.
pub open spec fn fires(start: u64, board: Board, i: int) -> bool {
    0 <= i < board.pending.len() && advanced(start, board.pending[i].request) == advanced(
        start,
        board.requests,
    )
}

/// A switch fires exactly when it is still the latest request, as long as
/// fewer requests were made than the counter has values.
pub proof fn lemma_fires_iff_latest(start: u64, board: Board, i: int)
    requires
        in_order(board),
        board.requests < 0x1_0000_0000_0000_0000,
    ensures
        fires(start, board, i) <==> is_latest(board, i),
{
    if 0 <= i < board.pending.len() {
        lemma_ticket_current_iff_latest(start, board.pending[i].request, board.requests);
    }
}

/// Carrying out one run of actions after another is carrying out both.
pub proof fn lemma_performed_in_two_goes(
    board: Board,
    first: Seq<ActionView>,
    second: Seq<ActionView>,
)
    ensures
        performed_all(board, first + second) == performed_all(
            performed_all(board, first),
            second,
        ),
    decreases second.len(),
{
    if second.len() == 0 {
        assert(first + second == first);
    } else {
        lemma_performed_in_two_goes(board, first, second.drop_last());
        assert((first + second).drop_last() == first + second.drop_last());
    }
}

/// Carrying out actions keeps the board in order and takes no request
/// back.
pub proof fn lemma_performed_keeps_order(board: Board, actions: Seq<ActionView>)
    requires
        in_order(board),
    ensures
        in_order(performed_all(board, actions)),
        performed_all(board, actions).requests >= board.requests,
    decreases actions.len(),
{
    if actions.len() > 0 {
        lemma_performed_keeps_order(board, actions.drop_last());
    }
}

/// The board after a single action.
proof fn lemma_performed_one(board: Board, action: ActionView)
    ensures
        performed_all(board, seq![action]) == performed(board, action),
{
    let single = seq![action];
    assert(single.drop_last() =~= Seq::<ActionView>::empty());
    assert(performed_all(board, single.drop_last()) == board);
    assert(single.last() == action);
}

/// What a `Resume` leaves on the board, whatever was on it: every switch
/// armed before is overtaken, and the only switch that is still the latest
/// request is the one for the next track due, where there is such a track
/// and its switch can be armed.
pub proof fn lemma_resume_leaves_one_switch(
    board: Board,
    history: Seq<TrackView>,
    now: int,
    lag_ms: u64,
)
    requires
        in_order(board),
    ensures
        ({
            let after = performed_all(board, resume_actions(history, now, lag_ms));
            let next = next_due(history, now, lag_ms);
            let armed = next is Some && can_arm(next->0, lag_ms);
            &&& in_order(after)
            &&& forall|i: int| 0 <= i < board.pending.len() ==> !is_latest(after, i)
            &&& forall|i: int| #[trigger] is_latest(after, i) ==> armed && i == board.pending.len()
            &&& armed ==> {
                &&& after.pending.len() == board.pending.len() + 1
                &&& is_latest(after, board.pending.len() as int)
                &&& after.pending.last().track == next->0
                &&& after.pending.last().lag_ms == lag_ms
            }
            &&& !armed ==> after.pending == board.pending
        }),
{
    let next = next_due(history, now, lag_ms);
    let pick = picked(history, now, lag_ms);
    let head = seq![ActionView::Invalidate];
    let one = performed_all(board, head);
    let two = performed_all(one, emit_of(pick));
    let three = performed_all(two, schedule_of(next, lag_ms));
    lemma_performed_in_two_goes(board, head + emit_of(pick), schedule_of(next, lag_ms));
    lemma_performed_in_two_goes(board, head, emit_of(pick));
    lemma_performed_one(board, ActionView::Invalidate);
    assert(one == Board { requests: board.requests + 1, ..board });
    if pick is Some {
        lemma_performed_one(one, ActionView::Emit(pick->0));
    }
    assert(two == one);
    if next is Some && can_arm(next->0, lag_ms) {
        lemma_performed_one(two, ActionView::Schedule { track: next->0, lag_ms });
    }
    assert(three == performed_all(board, resume_actions(history, now, lag_ms)));
}

/// Whether every event is a `Resume` from the controller.
pub open spec fn all_resumes(events: Seq<Event>) -> bool {
    forall|i: int| 0 <= i < events.len() ==> is_resume(#[trigger] events[i])
}

/// The wall clock of a control event.
pub open spec fn clock_of(event: Event) -> int {
    match event {
        Event::Control { now, .. } => now,
        _ => 0,
    }
}

/// The lag of a control event.
pub open spec fn lag_of(event: Event) -> u64 {
    match event {
        Event::Control { lag_ms, .. } => lag_ms,
        _ => 0,
    }
}

/// A run of `Resume`s leaves the history as it was, and its actions are
/// those of the run before the last, followed by what the last `Resume`
/// calls for.
pub proof fn lemma_run_of_resumes(s: SessionView, events: Seq<Event>)
    requires
        !(s.phase is Closed),
        all_resumes(events),
    ensures
        run(s, events).0.history == s.history,
        run(s, events).0.phase == s.phase,
        events.len() > 0 ==> !run(s, events).0.paused,
        events.len() > 0 ==> run(s, events).1 == run(s, events.drop_last()).1 + resume_actions(
            s.history,
            clock_of(events.last()),
            lag_of(events.last()),
        ),
    decreases events.len(),
{
    if events.len() > 0 {
        let earlier = events.drop_last();
        assert forall|i: int| 0 <= i < earlier.len() implies is_resume(
            #[trigger] earlier[i],
        ) by {
            assert(earlier[i] == events[i]);
        }
        lemma_run_of_resumes(s, earlier);
        let last = events.last();
        assert(is_resume(events[events.len() - 1]));
        let before = run(s, earlier).0;
        assert(step(before, last) == control_step(
            before,
            ControlPoll::Message(Control::Resume),
            clock_of(last),
            lag_of(last),
        ));
    }
}

/// However many times in a row a session is resumed, one switch at most
/// is left that may still fire: the one that the last `Resume` armed, for
/// the track that begins first after the playback instant of that
/// `Resume`. Every switch armed before, by the arrival of a track or by an
/// earlier `Resume`, is overtaken and hands nothing over when it wakes.
pub proof fn lemma_resumes_leave_one_switch(
    start: u64,
    board: Board,
    s: SessionView,
    events: Seq<Event>,
)
    requires
        in_order(board),
        !(s.phase is Closed),
        events.len() >= 1,
        all_resumes(events),
        performed_all(board, run(s, events).1).requests < 0x1_0000_0000_0000_0000,
    ensures
        ({
            let after = performed_all(board, run(s, events).1);
            let last = events.last();
            let next = next_due(s.history, clock_of(last), lag_of(last));
            let armed = next is Some && can_arm(next->0, lag_of(last));
            &&& forall|i: int, j: int|
                #![trigger fires(start, after, i), fires(start, after, j)]
                fires(start, after, i) && fires(start, after, j) ==> i == j
            &&& forall|i: int| #[trigger]
                fires(start, after, i) ==> {
                    &&& armed
                    &&& i == after.pending.len() - 1
                    &&& after.pending[i].track == next->0
                    &&& after.pending[i].lag_ms == lag_of(last)
                }
            &&& armed ==> fires(start, after, after.pending.len() - 1)
        }),
{
    let earlier_actions = run(s, events.drop_last()).1;
    let last = events.last();
    let closing = resume_actions(s.history, clock_of(last), lag_of(last));
    lemma_run_of_resumes(s, events);
    let middle = performed_all(board, earlier_actions);
    lemma_performed_keeps_order(board, earlier_actions);
    lemma_performed_in_two_goes(board, earlier_actions, closing);
    lemma_resume_leaves_one_switch(middle, s.history, clock_of(last), lag_of(last));
    let after = performed_all(board, run(s, events).1);
    assert(after == performed_all(middle, closing));
    let next = next_due(s.history, clock_of(last), lag_of(last));
    let armed = next is Some && can_arm(next->0, lag_of(last));
    assert forall|i: int| #[trigger] fires(start, after, i) implies {
        &&& armed
        &&& i == after.pending.len() - 1
        &&& after.pending[i].track == next->0
        &&& after.pending[i].lag_ms == lag_of(last)
    } by {
        lemma_fires_iff_latest(start, after, i);
        assert(is_latest(after, i));
    }
    if armed {
        lemma_fires_iff_latest(start, after, after.pending.len() - 1);
        assert(is_latest(after, middle.pending.len() as int));
    }
}

} // verus!
