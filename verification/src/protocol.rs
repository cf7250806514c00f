//! The gateway's wire protocol: operation codes, decoded frames, and what
//! kind of message a frame is.

use crate::payload::{track_of_payload, SongPayload};
use crate::time_parse::{instant_of_reading, rfc3339_reading};
use crate::track::TrackView;
use vstd::prelude::*;

verus! {

/// Server to client: the greeting, with the heartbeat interval.
pub const OP_HELLO: u8 = 0;

/// Server to client: an event.
pub const OP_DISPATCH: u8 = 1;

/// Client to server: a heartbeat.
pub const OP_HEARTBEAT: u8 = 9;

/// Server to client: a heartbeat was received.
pub const OP_HEARTBEAT_ACK: u8 = 10;

/// The event type of a track update.
pub const EVENT_TRACK_UPDATE: &'static str = "TRACK_UPDATE";

/// The heartbeat frame as it goes over the wire.
pub const HEARTBEAT_FRAME: &'static str = "{\"op\":9}";

/// How long one read of the transport may block, in milliseconds, so that
/// the control channel is looked at often.
pub const POLL_TIMEOUT_MS: u64 = 200;

/// The payload of the greeting.
#[derive(Clone, Copy, Debug, PartialEq, Eq, Structural)]
pub struct Hello {
    /// The heartbeat interval in milliseconds.
    pub heartbeat: u64,
}

/// A text message whose envelope decoded: the operation code, the event
/// type where one was given, and the payload read both ways it may be
/// meant. Which of the two readings counts is decided by the code and the
/// event type, not by whoever decoded the frame.
#[derive(Debug)]
pub struct Frame {
    pub op: u8,
    pub t: Option<String>,
    /// The payload as a greeting, where it decodes as one.
    pub hello: Option<Hello>,
    /// The payload as a track update, where it decodes as one.
    pub song: Option<SongPayload>,
}

/// What one read of the transport produced.
#[derive(Debug)]
pub enum Incoming {
    /// A text message whose envelope decoded.
    Frame(Frame),
    /// A text message whose envelope did not decode.
    Undecodable,
    /// A message that is not text.
    NotText,
    /// Nothing arrived within the poll timeout.
    TimedOut,
    /// The connection was closed in good order.
    Closed,
    /// The transport failed in any other way.
    Failed,
}

/// How a read of the transport went wrong.
#[derive(Clone, Copy, Debug, PartialEq, Eq, Structural)]
pub enum ReadFailure {
    /// The connection was closed in good order.
    ConnectionClosed,
    /// Nothing was there to read and the read would have had to wait.
    WouldBlock,
    /// The poll timeout ran out.
    TimedOut,
    /// Anything else.
    Other,
}

/// What a failed read counts as. Running into the poll timeout, in either
/// of its two forms, is no failure: nothing has arrived yet. A connection
/// closed in good order is the end of the session, not a fault. Whatever
/// else goes wrong is a failure of the transport.
pub open spec fn outcome_of_failure(failure: ReadFailure) -> Incoming {
    match failure {
        ReadFailure::ConnectionClosed => Incoming::Closed,
        ReadFailure::WouldBlock => Incoming::TimedOut,
        ReadFailure::TimedOut => Incoming::TimedOut,
        ReadFailure::Other => Incoming::Failed,
    }
}

/// Tells what a failed read counts as.
pub fn incoming_after_failure(failure: ReadFailure) -> (incoming: Incoming)
    ensures
        incoming == outcome_of_failure(failure),
{
    match failure {
        ReadFailure::ConnectionClosed => Incoming::Closed,
        ReadFailure::WouldBlock => Incoming::TimedOut,
        ReadFailure::TimedOut => Incoming::TimedOut,
        ReadFailure::Other => Incoming::Failed,
    }
}

/// What a frame asks of a session that is streaming.
#[derive(Clone, Copy, Debug, PartialEq, Eq, Structural)]
pub enum MessageKind {
    /// The server confirms a heartbeat: nothing to do.
    HeartbeatAck,
    /// A new track is announced.
    TrackUpdate,
    /// Anything else: ignored.
    Other,
}

/// Whether an event type is that of a track update.
pub open spec fn names_track_update(t: Option<String>) -> bool {
    match t {
        Some(name) => name@ == EVENT_TRACK_UPDATE@,
        None => false,
    }
}

/// The kind of a message with operation code `op` and event type `t`.
pub open spec fn kind_of(op: u8, t: Option<String>) -> MessageKind {
    if op == OP_HEARTBEAT_ACK {
        MessageKind::HeartbeatAck
    } else if op == OP_DISPATCH && names_track_update(t) {
        MessageKind::TrackUpdate
    } else {
        MessageKind::Other
    }
}

/// Tells what kind of message an operation code and an event type make.
pub fn message_kind(op: u8, t: &Option<String>) -> (kind: MessageKind)
    ensures
        kind == kind_of(op, *t),
{
    if op == OP_HEARTBEAT_ACK {
        return MessageKind::HeartbeatAck;
    }
    if op != OP_DISPATCH {
        return MessageKind::Other;
    }
    match t {
        Some(name) => {
            let expected: String = EVENT_TRACK_UPDATE.to_owned();
            if *name == expected {
                MessageKind::TrackUpdate
            } else {
                MessageKind::Other
            }
        },
        None => MessageKind::Other,
    }
}

/// The heartbeat interval a frame greets with: that of a greeting whose
/// payload decoded, and none for any other frame.
pub open spec fn greeting_of(frame: Frame) -> Option<u64> {
    if frame.op == OP_HELLO {
        match frame.hello {
            Some(hello) => Some(hello.heartbeat),
            None => None,
        }
    } else {
        None
    }
}

/// Reads the heartbeat interval off a frame, where it is a greeting.
pub fn greeting(frame: &Frame) -> (interval: Option<u64>)
    ensures
        interval == greeting_of(*frame),
{
    if frame.op != OP_HELLO {
        return None;
    }
    match frame.hello {
        Some(hello) => Some(hello.heartbeat),
        None => None,
    }
}

/// The track a frame announces: that of a track update whose payload
/// decoded and whose start time can be read. A frame of another kind, a
/// payload that did not decode and a start time that cannot be read
/// announce nothing.
pub open spec fn announced(frame: Frame) -> Option<TrackView> {
    if kind_of(frame.op, frame.t) == MessageKind::TrackUpdate {
        match frame.song {
            Some(payload) => track_of_payload(
                payload,
                instant_of_reading(rfc3339_reading(payload.start_time@)),
            ),
            None => None,
        }
    } else {
        None
    }
}

} // verus!
