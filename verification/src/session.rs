//! One gateway session as a state machine: what the session does about each
//! thing that happens to it.
//!
//! A session begins before its connection is made and is told how the
//! attempt went. From then on it is fed three kinds of events, in this order
//! on each turn of its loop: what a look at the control channel found, the
//! time on a steady clock, and what a read of the transport produced. It
//! answers each with the actions that are now due. It owns the history and
//! the paused flag; it owns neither the transport nor the clocks.

use crate::controller::{Control, ControlPoll};
use crate::history::{recorded, History};
use crate::payload::parse_track_info;
use crate::protocol::{announced, greeting, greeting_of, message_kind, Incoming, MessageKind};
use crate::schedule::{
    can_arm, can_schedule, earliest_future, next_due, pick_for_offset, picked,
};
use crate::timestamp::Timestamp;
use crate::track::{TrackInfo, TrackView};
use vstd::prelude::*;

verus! {

/// Why a session ended.
#[derive(Clone, Copy, Debug, PartialEq, Eq, Structural)]
pub enum SessionEnd {
    /// A `Stop` arrived, or the controller went away.
    Stopped,
    /// The gateway closed the connection in good order.
    RemoteClosed,
    /// A heartbeat could not be sent.
    HeartbeatFailed,
    /// The transport failed.
    TransportFailed,
}

/// Where a session stands.
#[derive(Clone, Copy, Debug, PartialEq, Eq, Structural)]
pub enum Phase {
    /// The connection is still to be made.
    Connecting,
    /// Connected; the first message is still to come.
    AwaitingHello,
    /// Reading messages.
    Streaming,
    /// Ended.
    Closed(SessionEnd),
}

/// Something the owner of the session has to do.
#[derive(Debug)]
pub enum Action {
    /// Send one heartbeat frame. Should that fail, tell the session.
    SendHeartbeat,
    /// Advance the generation counter, so that no pending switch fires.
    Invalidate,
    /// Hand this track to the consumer at once.
    Emit(TrackInfo),
    /// Advance the generation counter and let a switch to this track wait,
    /// with the new count as its ticket, until playback reaches it. Asked
    /// only for a switch that can be armed.
    Schedule { track: TrackInfo, lag_ms: u64 },
}

/// An action as plain values.
pub enum ActionView {
    SendHeartbeat,
    Invalidate,
    Emit(TrackView),
    Schedule { track: TrackView, lag_ms: u64 },
}

impl View for Action {
    type V = ActionView;

    open spec fn view(&self) -> ActionView {
        match *self {
            Action::SendHeartbeat => ActionView::SendHeartbeat,
            Action::Invalidate => ActionView::Invalidate,
            Action::Emit(track) => ActionView::Emit(track@),
            Action::Schedule { track, lag_ms } => ActionView::Schedule { track: track@, lag_ms },
        }
    }
}

/// What each action of a sequence says.
pub open spec fn action_views(actions: Seq<Action>) -> Seq<ActionView> {
    actions.map_values(|a: Action| a@)
}

/// The state of a session as plain values.
pub struct SessionView {
    pub phase: Phase,
    /// The heartbeat interval in milliseconds, once the greeting gave one.
    pub heartbeat_ms: Option<u64>,
    /// When the last heartbeat went out, in nanoseconds on the steady clock.
    pub last_heartbeat_ns: u64,
    pub paused: bool,
    pub history: Seq<TrackView>,
}

/// A session at its beginning: not connected yet, not paused, nothing
/// recorded.
pub open spec fn initial_session() -> SessionView {
    SessionView {
        phase: Phase::Connecting,
        heartbeat_ms: None,
        last_heartbeat_ns: 0,
        paused: false,
        history: Seq::empty(),
    }
}

/// The session, ended for the given reason.
pub open spec fn ended(s: SessionView, end: SessionEnd) -> SessionView {
    SessionView { phase: Phase::Closed(end), ..s }
}

/// The session after the attempt to connect: it awaits the greeting where
/// the connection was made, and has ended where it was not.
pub open spec fn connect_step(s: SessionView, connected: bool) -> SessionView {
    if s.phase == Phase::Connecting {
        if connected {
            SessionView { phase: Phase::AwaitingHello, ..s }
        } else {
            ended(s, SessionEnd::TransportFailed)
        }
    } else {
        s
    }
}

/// The action that shows a track at once, where there is one to show.
pub open spec fn emit_of(track: Option<TrackView>) -> Seq<ActionView> {
    match track {
        Some(track) => seq![ActionView::Emit(track)],
        None => Seq::empty(),
    }
}

/// The action that schedules a track, where there is one to schedule and
/// the switch to it can be armed. A track whose switch would be due at an
/// instant that cannot be held is not scheduled.
pub open spec fn schedule_of(track: Option<TrackView>, lag_ms: u64) -> Seq<ActionView> {
    match track {
        Some(track) => if can_arm(track, lag_ms) {
            seq![ActionView::Schedule { track, lag_ms }]
        } else {
            Seq::empty()
        },
        None => Seq::empty(),
    }
}

/// What the arrival of a track calls for in a session that is not paused:
/// the switch to it is scheduled, which overtakes what is pending. Where
/// the switch cannot be armed nothing is scheduled, and what is pending is
/// still overtaken: a newer track has arrived.
pub open spec fn arrival_actions(track: TrackView, lag_ms: u64) -> Seq<ActionView> {
    if can_arm(track, lag_ms) {
        seq![ActionView::Schedule { track, lag_ms }]
    } else {
        seq![ActionView::Invalidate]
    }
}

/// What resuming calls for: pending switches are invalidated, the track
/// that playback is on is shown at once, and the switch to the next track
/// due is scheduled, where it can be armed.
pub open spec fn resume_actions(history: Seq<TrackView>, now: int, lag_ms: u64) -> Seq<ActionView> {
    seq![ActionView::Invalidate] + emit_of(picked(history, now, lag_ms)) + schedule_of(
        next_due(history, now, lag_ms),
        lag_ms,
    )
}

/// The session and the actions due after a look at the control channel,
/// with the wall clock at `now` and playback lagging by `lag_ms`
/// milliseconds. A session that has ended takes no more notice.
pub open spec fn control_step(s: SessionView, poll: ControlPoll, now: int, lag_ms: u64) -> (
    SessionView,
    Seq<ActionView>,
) {
    if s.phase is Closed {
        (s, Seq::empty())
    } else {
        match poll {
            ControlPoll::Empty => (s, Seq::empty()),
            ControlPoll::Disconnected => (
                ended(s, SessionEnd::Stopped),
                seq![ActionView::Invalidate],
            ),
            ControlPoll::Message(Control::Stop) => (
                ended(s, SessionEnd::Stopped),
                seq![ActionView::Invalidate],
            ),
            ControlPoll::Message(Control::Pause) => (
                SessionView { paused: true, ..s },
                seq![ActionView::Invalidate],
            ),
            ControlPoll::Message(Control::Resume) => (
                SessionView { paused: false, ..s },
                resume_actions(s.history, now, lag_ms),
            ),
        }
    }
}

/// The time since the last heartbeat, in nanoseconds.
pub open spec fn since_heartbeat(s: SessionView, now_ns: u64) -> int {
    if now_ns >= s.last_heartbeat_ns {
        now_ns - s.last_heartbeat_ns
    } else {
        0
    }
}

/// Whether a heartbeat is due: the session is streaming, the greeting gave
/// an interval, and that interval has passed since the last heartbeat.
pub open spec fn heartbeat_due(s: SessionView, now_ns: u64) -> bool {
    &&& s.phase == Phase::Streaming
    &&& s.heartbeat_ms is Some
    &&& since_heartbeat(s, now_ns) >= s.heartbeat_ms->0 * 1_000_000
}

/// The session and the actions due when the steady clock reads `now_ns`.
pub open spec fn tick_step(s: SessionView, now_ns: u64) -> (SessionView, Seq<ActionView>) {
    if heartbeat_due(s, now_ns) {
        (SessionView { last_heartbeat_ns: now_ns, ..s }, seq![ActionView::SendHeartbeat])
    } else {
        (s, Seq::empty())
    }
}

/// The session after a heartbeat could not be sent: it ends.
pub open spec fn send_failed_step(s: SessionView) -> SessionView {
    if s.phase is Closed {
        s
    } else {
        ended(s, SessionEnd::HeartbeatFailed)
    }
}

/// The session and the actions due after a track was announced: a
/// streaming session records it and, unless it is paused, does what the
/// arrival of a track calls for.
pub open spec fn track_step(s: SessionView, track: TrackView, lag_ms: u64) -> (
    SessionView,
    Seq<ActionView>,
) {
    if s.phase == Phase::Streaming {
        (
            SessionView { history: recorded(s.history, track), ..s },
            if s.paused {
                Seq::empty()
            } else {
                arrival_actions(track, lag_ms)
            },
        )
    } else {
        (s, Seq::empty())
    }
}

/// The session and the actions due after the first read of the transport
/// that produced anything. A greeting sets the heartbeat interval and calls
/// for one heartbeat at once; any other message leaves the session without
/// heartbeats. Either way the session is streaming from then on.
pub open spec fn first_read_step(s: SessionView, incoming: Incoming, now_ns: u64) -> (
    SessionView,
    Seq<ActionView>,
) {
    match incoming {
        Incoming::TimedOut => (s, Seq::empty()),
        Incoming::Closed => (ended(s, SessionEnd::RemoteClosed), Seq::empty()),
        Incoming::Failed => (ended(s, SessionEnd::TransportFailed), Seq::empty()),
        Incoming::Frame(frame) => match greeting_of(frame) {
            Some(interval) => (
                SessionView {
                    phase: Phase::Streaming,
                    heartbeat_ms: Some(interval),
                    last_heartbeat_ns: now_ns,
                    ..s
                },
                seq![ActionView::SendHeartbeat],
            ),
            None => (SessionView { phase: Phase::Streaming, ..s }, Seq::empty()),
        },
        Incoming::Undecodable => (SessionView { phase: Phase::Streaming, ..s }, Seq::empty()),
        Incoming::NotText => (SessionView { phase: Phase::Streaming, ..s }, Seq::empty()),
    }
}

/// The session and the actions due after a read of the transport while
/// streaming. A timeout is no event. A message that is not text, one that
/// does not decode and one that announces nothing are passed over.
pub open spec fn streaming_read_step(s: SessionView, incoming: Incoming, lag_ms: u64) -> (
    SessionView,
    Seq<ActionView>,
) {
    match incoming {
        Incoming::Closed => (ended(s, SessionEnd::RemoteClosed), Seq::empty()),
        Incoming::Failed => (ended(s, SessionEnd::TransportFailed), Seq::empty()),
        Incoming::Frame(frame) => match announced(frame) {
            Some(track) => track_step(s, track, lag_ms),
            None => (s, Seq::empty()),
        },
        Incoming::TimedOut => (s, Seq::empty()),
        Incoming::Undecodable => (s, Seq::empty()),
        Incoming::NotText => (s, Seq::empty()),
    }
}

/// The session and the actions due after a read of the transport.
pub open spec fn read_step(s: SessionView, incoming: Incoming, now_ns: u64, lag_ms: u64) -> (
    SessionView,
    Seq<ActionView>,
) {
    match s.phase {
        Phase::Connecting => (s, Seq::empty()),
        Phase::AwaitingHello => first_read_step(s, incoming, now_ns),
        Phase::Streaming => streaming_read_step(s, incoming, lag_ms),
        Phase::Closed(_) => (s, Seq::empty()),
    }
}

/// The state of one connection to the gateway.
#[derive(Debug)]
pub struct Session {
    phase: Phase,
    heartbeat_ms: Option<u64>,
    last_heartbeat_ns: u64,
    paused: bool,
    history: History,
}

impl View for Session {
    type V = SessionView;

    closed spec fn view(&self) -> SessionView {
        SessionView {
            phase: self.phase,
            heartbeat_ms: self.heartbeat_ms,
            last_heartbeat_ns: self.last_heartbeat_ns,
            paused: self.paused,
            history: self.history@,
        }
    }
}

impl Session {
    /// A session at its beginning: not connected yet, not paused, and with
    /// a history of its own, empty.
    pub fn new() -> (s: Session)
        ensures
            s@ == initial_session(),
    {
        Session {
            phase: Phase::Connecting,
            heartbeat_ms: None,
            last_heartbeat_ns: 0,
            paused: false,
            history: History::new(),
        }
    }

    /// Where the session stands.
    pub fn phase(&self) -> (phase: Phase)
        ensures
            phase == self@.phase,
    {
        self.phase
    }

    /// Why the session ended, once it has.
    pub fn end(&self) -> (end: Option<SessionEnd>)
        ensures
            end == match self@.phase {
                Phase::Closed(reason) => Some(reason),
                _ => None,
            },
    {
        match self.phase {
            Phase::Closed(reason) => Some(reason),
            _ => None,
        }
    }

    /// Whether the session is paused.
    pub fn is_paused(&self) -> (paused: bool)
        ensures
            paused == self@.paused,
    {
        self.paused
    }

    /// The heartbeat interval in milliseconds, once the greeting gave one.
    pub fn heartbeat_interval_ms(&self) -> (interval: Option<u64>)
        ensures
            interval == self@.heartbeat_ms,
    {
        self.heartbeat_ms
    }

    /// The tracks recorded in this session.
    pub fn history(&self) -> (history: &History)
        ensures
            history@ == self@.history,
    {
        &self.history
    }

    /// Takes note of how the attempt to connect went.
    pub fn on_connect(&mut self, connected: bool)
        ensures
            final(self)@ == connect_step(old(self)@, connected),
    {
        if let Phase::Connecting = self.phase {
            if connected {
                self.phase = Phase::AwaitingHello;
            } else {
                self.phase = Phase::Closed(SessionEnd::TransportFailed);
            }
        }
    }

    /// Takes what a look at the control channel found, with the wall clock
    /// at `now` and playback lagging by `lag_ms` milliseconds.
    pub fn on_control(&mut self, poll: ControlPoll, now: Timestamp, lag_ms: u64) -> (actions: Vec<
        Action,
    >)
        ensures
            final(self)@ == control_step(old(self)@, poll, now@, lag_ms).0,
            action_views(actions@) == control_step(old(self)@, poll, now@, lag_ms).1,
    {
        let mut actions: Vec<Action> = Vec::new();
        if let Phase::Closed(_) = self.phase {
            return actions;
        }
        match poll {
            ControlPoll::Empty => {},
            ControlPoll::Disconnected | ControlPoll::Message(Control::Stop) => {
                self.phase = Phase::Closed(SessionEnd::Stopped);
                actions.push(Action::Invalidate);
            },
            ControlPoll::Message(Control::Pause) => {
                self.paused = true;
                actions.push(Action::Invalidate);
            },
            ControlPoll::Message(Control::Resume) => {
                self.paused = false;
                actions.push(Action::Invalidate);
                let ghost first = action_views(actions@);
                match pick_for_offset(self.history.entries(), now, lag_ms) {
                    Some(track) => {
                        actions.push(Action::Emit(track));
                    },
                    None => {},
                }
                let ghost second = action_views(actions@);
                assert(second == first + emit_of(picked(self.history@, now@, lag_ms)));
                match earliest_future(self.history.entries(), now, lag_ms) {
                    Some(track) => {
                        if can_schedule(&track, lag_ms) {
                            actions.push(Action::Schedule { track, lag_ms });
                        }
                    },
                    None => {},
                }
                assert(action_views(actions@) == second + schedule_of(
                    next_due(self.history@, now@, lag_ms),
                    lag_ms,
                ));
            },
        }
        actions
    }

    /// Takes the time on the steady clock, in nanoseconds, and asks for a
    /// heartbeat when one is due.
    pub fn on_tick(&mut self, now_ns: u64) -> (actions: Vec<Action>)
        ensures
            final(self)@ == tick_step(old(self)@, now_ns).0,
            action_views(actions@) == tick_step(old(self)@, now_ns).1,
    {
        let mut actions: Vec<Action> = Vec::new();
        if let Phase::Streaming = self.phase {
            if let Some(interval) = self.heartbeat_ms {
                let elapsed: u64 = now_ns.saturating_sub(self.last_heartbeat_ns);
                if elapsed as u128 >= interval as u128 * 1_000_000 {
                    self.last_heartbeat_ns = now_ns;
                    actions.push(Action::SendHeartbeat);
                }
            }
        }
        actions
    }

    /// Takes note that a heartbeat could not be sent: the session ends.
    pub fn on_send_failed(&mut self)
        ensures
            final(self)@ == send_failed_step(old(self)@),
    {
        if let Phase::Closed(_) = self.phase {
        } else {
            self.phase = Phase::Closed(SessionEnd::HeartbeatFailed);
        }
    }

    /// Takes a track that the gateway announced, with playback lagging by
    /// `lag_ms` milliseconds.
    pub fn on_track_update(&mut self, track: TrackInfo, lag_ms: u64) -> (actions: Vec<Action>)
        ensures
            final(self)@ == track_step(old(self)@, track@, lag_ms).0,
            action_views(actions@) == track_step(old(self)@, track@, lag_ms).1,
    {
        let mut actions: Vec<Action> = Vec::new();
        if let Phase::Streaming = self.phase {
            if !self.paused {
                if can_schedule(&track, lag_ms) {
                    actions.push(Action::Schedule { track: track.clone(), lag_ms });
                } else {
                    actions.push(Action::Invalidate);
                }
            }
            self.history.record(track);
        }
        actions
    }

    /// Takes what a read of the transport produced, with the steady clock
    /// at `now_ns` nanoseconds and playback lagging by `lag_ms`
    /// milliseconds.
    pub fn on_read(&mut self, incoming: &Incoming, now_ns: u64, lag_ms: u64) -> (actions: Vec<
        Action,
    >)
        ensures
            final(self)@ == read_step(old(self)@, *incoming, now_ns, lag_ms).0,
            action_views(actions@) == read_step(old(self)@, *incoming, now_ns, lag_ms).1,
    {
        match self.phase {
            Phase::Connecting => Vec::new(),
            Phase::Closed(_) => Vec::new(),
            Phase::AwaitingHello => self.on_first_read(incoming, now_ns),
            Phase::Streaming => self.on_streaming_read(incoming, lag_ms),
        }
    }

    /// The first read: the greeting, or whatever came in its place.
    fn on_first_read(&mut self, incoming: &Incoming, now_ns: u64) -> (actions: Vec<Action>)
        ensures
            final(self)@ == first_read_step(old(self)@, *incoming, now_ns).0,
            action_views(actions@) == first_read_step(old(self)@, *incoming, now_ns).1,
    {
        let mut actions: Vec<Action> = Vec::new();
        match incoming {
            Incoming::TimedOut => {},
            Incoming::Closed => {
                self.phase = Phase::Closed(SessionEnd::RemoteClosed);
            },
            Incoming::Failed => {
                self.phase = Phase::Closed(SessionEnd::TransportFailed);
            },
            Incoming::Frame(frame) => {
                self.phase = Phase::Streaming;
                match greeting(frame) {
                    Some(interval) => {
                        self.heartbeat_ms = Some(interval);
                        self.last_heartbeat_ns = now_ns;
                        actions.push(Action::SendHeartbeat);
                    },
                    None => {},
                }
            },
            Incoming::Undecodable => {
                self.phase = Phase::Streaming;
            },
            Incoming::NotText => {
                self.phase = Phase::Streaming;
            },
        }
        actions
    }

    /// A read while streaming.
    fn on_streaming_read(&mut self, incoming: &Incoming, lag_ms: u64) -> (actions: Vec<Action>)
        ensures
            final(self)@ == streaming_read_step(old(self)@, *incoming, lag_ms).0,
            action_views(actions@) == streaming_read_step(old(self)@, *incoming, lag_ms).1,
    {
        match incoming {
            Incoming::Closed => {
                self.phase = Phase::Closed(SessionEnd::RemoteClosed);
                Vec::new()
            },
            Incoming::Failed => {
                self.phase = Phase::Closed(SessionEnd::TransportFailed);
                Vec::new()
            },
            Incoming::Frame(frame) => {
                match message_kind(frame.op, &frame.t) {
                    MessageKind::TrackUpdate => match &frame.song {
                        Some(payload) => match parse_track_info(payload) {
                            Some(track) => self.on_track_update(track, lag_ms),
                            None => Vec::new(),
                        },
                        None => Vec::new(),
                    },
                    _ => Vec::new(),
                }
            },
            _ => Vec::new(),
        }
    }
}

/// Something that happens to a session.
pub enum Event {
    /// The attempt to connect was made.
    Connect { connected: bool },
    /// A look at the control channel, with the wall clock and the lag.
    Control { poll: ControlPoll, now: int, lag_ms: u64 },
    /// A reading of the steady clock.
    Tick { now_ns: u64 },
    /// A heartbeat could not be sent.
    SendFailed,
    /// A read of the transport, with the steady clock and the lag.
    Read { incoming: Incoming, now_ns: u64, lag_ms: u64 },
}

/// The session and the actions due after one event.
pub open spec fn step(s: SessionView, event: Event) -> (SessionView, Seq<ActionView>) {
    match event {
        Event::Connect { connected } => (connect_step(s, connected), Seq::empty()),
        Event::Control { poll, now, lag_ms } => control_step(s, poll, now, lag_ms),
        Event::Tick { now_ns } => tick_step(s, now_ns),
        Event::SendFailed => (send_failed_step(s), Seq::empty()),
        Event::Read { incoming, now_ns, lag_ms } => read_step(s, incoming, now_ns, lag_ms),
    }
}

/// The session after a run of events, and all the actions that fell due
/// on the way, in order.
pub open spec fn run(s: SessionView, events: Seq<Event>) -> (SessionView, Seq<ActionView>)
    decreases events.len(),
{
    if events.len() == 0 {
        (s, Seq::empty())
    } else {
        let before = run(s, events.drop_last());
        let last = step(before.0, events.last());
        (last.0, before.1 + last.1)
    }
}

/// Whether an action puts a track before the consumer, now or later.
pub open spec fn shows_track(action: ActionView) -> bool {
    action is Emit || action is Schedule
}

/// Whether an event is a `Resume` from the controller.
pub open spec fn is_resume(event: Event) -> bool {
    event matches Event::Control { poll, .. } && poll == ControlPoll::Message(Control::Resume)
}

/// A paused session shows nothing until it is resumed: over any run of
/// events without a `Resume`, it asks for no track to be shown or
/// scheduled, and it is still paused at the end.
pub proof fn lemma_paused_session_shows_nothing(s: SessionView, events: Seq<Event>)
    requires
        s.paused,
        forall|i: int| 0 <= i < events.len() ==> !is_resume(#[trigger] events[i]),
    ensures
        run(s, events).0.paused,
        forall|i: int|
            0 <= i < run(s, events).1.len() ==> !shows_track(#[trigger] run(s, events).1[i]),
    decreases events.len(),
{
    if events.len() > 0 {
        let earlier = events.drop_last();
        assert forall|i: int| 0 <= i < earlier.len() implies !is_resume(
            #[trigger] earlier[i],
        ) by {
            assert(earlier[i] == events[i]);
        }
        lemma_paused_session_shows_nothing(s, earlier);
        assert(!is_resume(events[events.len() - 1]));
    }
}

/// Pausing invalidates what is pending and leaves the session paused.
pub proof fn lemma_pause_invalidates(s: SessionView, now: int, lag_ms: u64)
    requires
        !(s.phase is Closed),
    ensures
        control_step(s, ControlPoll::Message(Control::Pause), now, lag_ms) == (
            SessionView { paused: true, ..s },
            seq![ActionView::Invalidate],
        ),
{
}

/// Resuming first invalidates what is pending, then shows the track that
/// playback is on, where the pick rule finds one, and last schedules the
/// next track due, where there is one and its switch can be armed: one
/// switch at most.
pub proof fn lemma_resume_arms_one_switch(s: SessionView, now: int, lag_ms: u64)
    requires
        !(s.phase is Closed),
    ensures
        ({
            let after = control_step(s, ControlPoll::Message(Control::Resume), now, lag_ms);
            let actions = after.1;
            let pick = picked(s.history, now, lag_ms);
            let next = next_due(s.history, now, lag_ms);
            &&& !after.0.paused
            &&& actions.len() >= 1
            &&& actions[0] == ActionView::Invalidate
            &&& forall|i: int, j: int|
                0 <= i < actions.len() && 0 <= j < actions.len() && (#[trigger] actions[i])
                    is Schedule && (#[trigger] actions[j]) is Schedule ==> i == j
            &&& forall|i: int, j: int|
                0 <= i < actions.len() && 0 <= j < actions.len() && (#[trigger] actions[i])
                    is Emit && (#[trigger] actions[j]) is Emit ==> i == j
            &&& (exists|i: int| 0 <= i < actions.len() && (#[trigger] actions[i]) is Schedule)
                <==> (next is Some && can_arm(next->0, lag_ms))
            &&& (exists|i: int| 0 <= i < actions.len() && (#[trigger] actions[i]) is Emit)
                <==> pick is Some
            &&& forall|i: int|
                0 <= i < actions.len() && (#[trigger] actions[i]) is Schedule ==> actions[i]
                    == (ActionView::Schedule { track: next->0, lag_ms })
            &&& forall|i: int|
                0 <= i < actions.len() && (#[trigger] actions[i]) is Emit ==> actions[i]
                    == ActionView::Emit(pick->0)
        }),
{
    let actions = control_step(s, ControlPoll::Message(Control::Resume), now, lag_ms).1;
    let pick = picked(s.history, now, lag_ms);
    let next = next_due(s.history, now, lag_ms);
    let armed = next is Some && can_arm(next->0, lag_ms);
    if pick is Some {
        assert(actions[1] is Emit);
        if armed {
            assert(actions[2] is Schedule);
        }
    } else if armed {
        assert(actions[1] is Schedule);
    }
}

/// A session that has ended stays as it is: whatever happens next, it
/// keeps its state and asks for nothing, so that nothing queued behind a
/// `Stop` is acted on.
pub proof fn lemma_closed_session_is_inert(s: SessionView, events: Seq<Event>)
    requires
        s.phase is Closed,
    ensures
        run(s, events) == (s, Seq::<ActionView>::empty()),
    decreases events.len(),
{
    if events.len() > 0 {
        lemma_closed_session_is_inert(s, events.drop_last());
    }
}

} // verus!
