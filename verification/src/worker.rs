//! The worker's outer loop: whether to open another session, and how long
//! to wait before it.

use crate::controller::ControlPoll;
use crate::session::{control_step, Phase, SessionEnd, SessionView};
use vstd::prelude::*;

verus! {

/// Seconds between one session and the next attempt.
pub const RETRY_DELAY_SECS: u64 = 5;

/// Seconds before the next attempt when a control message other than
/// `Stop` was waiting as the session ended.
pub const SHORT_RETRY_DELAY_SECS: u64 = 1;

/// What the worker does once a session has ended.
#[derive(Clone, Copy, Debug, PartialEq, Eq, Structural)]
pub enum Retry {
    /// The worker ends; no further session is opened.
    Exit,
    /// The worker waits, then opens another session.
    After { secs: u64 },
}

/// Whether the worker may open a session, given what a look at the control
/// channel found.
pub fn may_attempt(poll: ControlPoll) -> (go: bool)
    ensures
        go == !poll.is_stop(),
{
    !poll.asks_to_stop()
}

/// What the worker does after a session that ended with `end`, given what
/// a look at the control channel found then. A stopped session ends the
/// worker, and so does a stop found waiting. Any other end, failure or not,
/// is followed by another attempt, never at once.
pub open spec fn retry_after(end: SessionEnd, poll: ControlPoll) -> Retry {
    if end == SessionEnd::Stopped || poll.is_stop() {
        Retry::Exit
    } else if poll == ControlPoll::Empty {
        Retry::After { secs: RETRY_DELAY_SECS }
    } else {
        Retry::After { secs: SHORT_RETRY_DELAY_SECS }
    }
}

/// Decides what the worker does after a session.
pub fn after_session(end: SessionEnd, poll: ControlPoll) -> (retry: Retry)
    ensures
        retry == retry_after(end, poll),
{
    if end == SessionEnd::Stopped || poll.asks_to_stop() {
        Retry::Exit
    } else {
        match poll {
            ControlPoll::Empty => Retry::After { secs: RETRY_DELAY_SECS },
            _ => Retry::After { secs: SHORT_RETRY_DELAY_SECS },
        }
    }
}

/// A stop ends the session and the worker with it: a session that is told
/// to stop, or loses its controller, ends as stopped, and after a stopped
/// session the worker opens no other, whatever the control channel holds.
pub proof fn lemma_stop_ends_worker(
    s: SessionView,
    poll: ControlPoll,
    now: int,
    lag_ms: u64,
    later: ControlPoll,
)
    requires
        !(s.phase is Closed),
        poll.is_stop(),
    ensures
        control_step(s, poll, now, lag_ms).0.phase == Phase::Closed(SessionEnd::Stopped),
        retry_after(SessionEnd::Stopped, later) == Retry::Exit,
{
}

} // verus!
