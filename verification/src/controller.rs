//! The lifecycle of the metadata client as its owner sees it: started,
//! paused, resumed, pointed at another station, stopped.
//!
//! The controller decides; whoever owns it carries the decisions out. It
//! answers each intent with the commands that are now due: a worker to
//! start, or a message for the worker that is running.

use crate::station::Station;
use vstd::prelude::*;

verus! {

/// A message for the running worker.
#[derive(Clone, Copy, Debug, PartialEq, Eq, Structural)]
pub enum Control {
    Stop,
    Pause,
    Resume,
}

/// What one look at the worker's control channel found.
#[derive(Clone, Copy, Debug, PartialEq, Eq, Structural)]
pub enum ControlPoll {
    /// A message was waiting.
    Message(Control),
    /// Nothing was waiting.
    Empty,
    /// The controller is gone.
    Disconnected,
}

impl ControlPoll {
    /// Whether the worker is told to end: by a `Stop`, or by the loss of
    /// its controller, which counts as one.
    pub open spec fn is_stop(self) -> bool {
        self == ControlPoll::Message(Control::Stop) || self == ControlPoll::Disconnected
    }

    /// Whether the worker is told to end.
    pub fn asks_to_stop(&self) -> (r: bool)
        ensures
            r == self.is_stop(),
    {
        match self {
            ControlPoll::Message(Control::Stop) => true,
            ControlPoll::Disconnected => true,
            _ => false,
        }
    }
}

/// Something the owner of the controller has to do.
#[derive(Clone, Copy, Debug, PartialEq, Eq, Structural)]
pub enum Command {
    /// Start a worker for this station, with a fresh control channel.
    Spawn(Station),
    /// Send this message to the running worker.
    Send(Control),
}

/// The controller: a station, and whether a worker is running for it.
#[derive(Debug)]
pub struct Meta {
    station: Station,
    running: bool,
}

/// The state of a controller as plain values.
pub struct MetaView {
    pub station: Station,
    pub running: bool,
}

impl View for Meta {
    type V = MetaView;

    closed spec fn view(&self) -> MetaView {
        MetaView { station: self.station, running: self.running }
    }
}

/// The command that forwards `message`, where a worker is running.
pub open spec fn forwarded(running: bool, message: Control) -> Option<Command> {
    if running {
        Some(Command::Send(message))
    } else {
        None
    }
}

/// The controller after a start, and the command that the start calls for:
/// a worker for the current station, unless one is running already.
pub open spec fn started(m: MetaView) -> (MetaView, Option<Command>) {
    (
        MetaView { running: true, ..m },
        if m.running {
            None
        } else {
            Some(Command::Spawn(m.station))
        },
    )
}

/// The controller after a stop, and the command that the stop calls for: a
/// `Stop` for the worker that was running.
pub open spec fn stopped(m: MetaView) -> (MetaView, Option<Command>) {
    (MetaView { running: false, ..m }, forwarded(m.running, Control::Stop))
}

/// The commands of an optional command.
pub open spec fn as_commands(command: Option<Command>) -> Seq<Command> {
    match command {
        Some(c) => seq![c],
        None => Seq::empty(),
    }
}

/// The controller after it was pointed at `station`, and the commands that
/// this calls for: a running client is stopped and started again for the
/// new station, a stopped one only takes note of it.
pub open spec fn retargeted(m: MetaView, station: Station) -> (MetaView, Seq<Command>) {
    if m.running {
        let halted = stopped(m);
        let restarted = started(MetaView { station, ..halted.0 });
        (restarted.0, as_commands(halted.1) + as_commands(restarted.1))
    } else {
        (MetaView { station, ..m }, Seq::empty())
    }
}

impl Meta {
    /// A controller for `station`, stopped.
    pub fn new(station: Station) -> (meta: Meta)
        ensures
            meta@ == (MetaView { station, running: false }),
    {
        Meta { station, running: false }
    }

    /// The station the controller points at.
    pub fn station(&self) -> (station: Station)
        ensures
            station == self@.station,
    {
        self.station
    }

    /// Whether a worker is running.
    pub fn is_running(&self) -> (running: bool)
        ensures
            running == self@.running,
    {
        self.running
    }

    /// Starts the client. Does nothing when it is already running; else a
    /// worker is to be started for the current station.
    pub fn start(&mut self) -> (command: Option<Command>)
        ensures
            (final(self)@, command) == started(old(self)@),
    {
        Self::start_inner(self)
    }

    /// Pauses the running worker. Does nothing when none is running.
    pub fn pause(&self) -> (command: Option<Command>)
        ensures
            command == forwarded(self@.running, Control::Pause),
    {
        if self.running {
            Some(Command::Send(Control::Pause))
        } else {
            None
        }
    }

    /// Resumes the running worker. Does nothing when none is running:
    /// resuming never starts one.
    pub fn resume(&self) -> (command: Option<Command>)
        ensures
            command == forwarded(self@.running, Control::Resume),
    {
        if self.running {
            Some(Command::Send(Control::Resume))
        } else {
            None
        }
    }

    /// Stops the client: the running worker, if any, is told to stop, and
    /// the controller is stopped whatever it was before.
    pub fn stop(&mut self) -> (command: Option<Command>)
        ensures
            (final(self)@, command) == stopped(old(self)@),
    {
        Self::stop_inner(self)
    }

    /// Points the controller at another station. A running client is
    /// stopped and started again for the new station; a stopped one stays
    /// stopped.
    pub fn set_station(&mut self, station: Station) -> (commands: Vec<Command>)
        ensures
            (final(self)@, commands@) == retargeted(old(self)@, station),
    {
        let mut commands: Vec<Command> = Vec::new();
        let was_running = self.running;
        if was_running {
            match Self::stop_inner(self) {
                Some(c) => commands.push(c),
                None => {},
            }
        }
        self.station = station;
        if was_running {
            match Self::start_inner(self) {
                Some(c) => commands.push(c),
                None => {},
            }
        }
        commands
    }

    /// Moves to running; a worker is due unless one runs already.
    fn start_inner(inner: &mut Meta) -> (command: Option<Command>)
        ensures
            (final(inner)@, command) == started(old(inner)@),
    {
        if inner.running {
            None
        } else {
            inner.running = true;
            Some(Command::Spawn(inner.station))
        }
    }

    /// Moves to stopped; a `Stop` is due for the worker that was running.
    fn stop_inner(inner: &mut Meta) -> (command: Option<Command>)
        ensures
            (final(inner)@, command) == stopped(old(inner)@),
    {
        let was_running = inner.running;
        inner.running = false;
        if was_running {
            Some(Command::Send(Control::Stop))
        } else {
            None
        }
    }
}

/// Stopping twice is stopping once: a stopped controller stays as it is
/// and has nothing to send.
pub proof fn lemma_stop_is_idempotent(m: MetaView)
    ensures
        stopped(stopped(m).0) == (stopped(m).0, None::<Command>),
{
}

/// Starting twice is starting once: a running controller stays as it is
/// and starts no second worker.
pub proof fn lemma_start_is_idempotent(m: MetaView)
    ensures
        started(started(m).0) == (started(m).0, None::<Command>),
{
}

/// Pointing a running client at another station stops the worker first and
/// then starts one for the new station; the client is running afterwards.
pub proof fn lemma_retarget_restarts(m: MetaView, station: Station)
    requires
        m.running,
    ensures
        retargeted(m, station) == (
            MetaView { station, running: true },
            seq![Command::Send(Control::Stop), Command::Spawn(station)],
        ),
{
}

} // verus!
