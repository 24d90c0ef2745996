//! The connection-event monitor: selects event categories, starts the
//! worker's event stream and classifies the events read back from it.

use vstd::prelude::*;
use crate::channel::{phase_after, step_after_send, outcome_of, CommandChannel, Phase, Step};
use crate::command::{tokens_of, Command};
use crate::error::ControlError;
use crate::events::{decode_event, event_frame_outcome, ZMonitorEvents};

verus! {

/// How far a monitor has been set up.
#[derive(Debug, Clone, Copy, PartialEq, Eq, Structural)]
pub enum MonitorStage {
    Constructed,
    /// A subscription was confirmed.
    Configured,
    /// Event emission was confirmed.
    Started,
}

/// Why a monitor could not be created.
#[derive(Debug, Clone, Copy, PartialEq, Eq, Structural)]
pub enum ZMonitorError {
    Instantiate,
}

impl ZMonitorError {
    pub fn description(&self) -> (r: &'static str)
        ensures
            r@ == "Could not instantiate new ZMonitor struct"@,
    {
        match self {
            ZMonitorError::Instantiate => "Could not instantiate new ZMonitor struct",
        }
    }

    pub fn to_string(&self) -> (r: String)
        ensures
            r@ == "Could not instantiate new ZMonitor struct"@,
    {
        String::from_str(self.description())
    }
}

/// The stage a monitor reaches once the command in flight is confirmed.
pub open spec fn stage_on_success(stage: MonitorStage, verb: MonitorCommand) -> MonitorStage {
    match verb {
        MonitorCommand::Listen => if stage == MonitorStage::Started {
            MonitorStage::Started
        } else {
            MonitorStage::Configured
        },
        MonitorCommand::Start => MonitorStage::Started,
        MonitorCommand::Verbose => stage,
    }
}

/// The stage after a step: advanced when the operation finished well,
/// unchanged otherwise.
pub open spec fn stage_after(stage: MonitorStage, verb: MonitorCommand, s: Step) -> MonitorStage {
    if s matches Step::Finish(Ok(_)) {
        stage_on_success(stage, verb)
    } else {
        stage
    }
}

/// The monitor commands.
#[derive(Debug, Clone, Copy, PartialEq, Eq, Structural)]
pub enum MonitorCommand {
    Listen,
    Start,
    Verbose,
}

/// Drives a worker that taps the lifecycle events of a socket owned by the
/// caller, and reads those events back.
pub struct ZMonitor {
    channel: CommandChannel,
    stage: MonitorStage,
    in_flight: MonitorCommand,
}

impl ZMonitor {
    pub closed spec fn phase(&self) -> Phase {
        self.channel.phase()
    }

    pub closed spec fn stage(&self) -> MonitorStage {
        self.stage
    }

    /// The command whose exchange is under way, or was last.
    pub closed spec fn in_flight(&self) -> MonitorCommand {
        self.in_flight
    }

    /// Whether the command in flight waits for a status reply.
    pub closed spec fn acknowledged(&self) -> bool {
        self.channel.acknowledged()
    }

    /// A monitor over a worker attached to the caller's socket; `attached`
    /// says whether the attachment succeeded.
    pub fn new(attached: bool) -> (r: Result<ZMonitor, ZMonitorError>)
        ensures
            attached <==> r is Ok,
            attached ==> r->Ok_0.phase() == Phase::Idle,
            attached ==> r->Ok_0.stage() == MonitorStage::Constructed,
            !attached ==> r == Err::<ZMonitor, ZMonitorError>(ZMonitorError::Instantiate),
    {
        if attached {
            Ok(
                ZMonitor {
                    channel: CommandChannel::new(),
                    stage: MonitorStage::Constructed,
                    in_flight: MonitorCommand::Verbose,
                },
            )
        } else {
            Err(ZMonitorError::Instantiate)
        }
    }

    pub fn current_phase(&self) -> (r: Phase)
        ensures
            r == self.phase(),
    {
        self.channel.current_phase()
    }

    pub fn current_stage(&self) -> (r: MonitorStage)
        ensures
            r == self.stage(),
    {
        self.stage
    }

    /// Subscribes to the given categories, in order and duplicates
    /// included; confirmed by a status reply.
    pub fn set_attrs(&mut self, attrs: &[ZMonitorEvents]) -> (s: Step)
        requires
            old(self).phase() == Phase::Idle,
        ensures
            s is Transmit && s->Transmit_0@ == seq!["LISTEN"@] + tokens_of(attrs@),
            final(self).phase() == Phase::Sending,
            final(self).in_flight() == MonitorCommand::Listen,
            final(self).stage() == old(self).stage(),
            final(self).acknowledged(),
    {
        self.in_flight = MonitorCommand::Listen;
        self.channel.submit(Command::listen(attrs), true)
    }

    /// Begins event emission; confirmed by a status reply so that no event
    /// read races the start.
    pub fn start(&mut self) -> (s: Step)
        requires
            old(self).phase() == Phase::Idle,
        ensures
            s is Transmit && s->Transmit_0@ == seq!["START"@],
            final(self).phase() == Phase::Sending,
            final(self).in_flight() == MonitorCommand::Start,
            final(self).stage() == old(self).stage(),
            final(self).acknowledged(),
    {
        self.in_flight = MonitorCommand::Start;
        self.channel.submit(Command::start(), true)
    }

    /// Toggles the worker's diagnostics without waiting for a reply.
    pub fn verbose(&mut self) -> (s: Step)
        requires
            old(self).phase() == Phase::Idle,
        ensures
            s is Transmit && s->Transmit_0@ == seq!["VERBOSE"@],
            final(self).phase() == Phase::Sending,
            final(self).in_flight() == MonitorCommand::Verbose,
            final(self).stage() == old(self).stage(),
            !final(self).acknowledged(),
    {
        self.in_flight = MonitorCommand::Verbose;
        self.channel.submit(Command::verbose(), false)
    }

    /// Takes the return code of sending the command in flight.
    pub fn on_sent(&mut self, rc: i32) -> (s: Step)
        requires
            old(self).phase() == Phase::Sending,
        ensures
            s == step_after_send(rc, old(self).acknowledged()),
            final(self).phase() == phase_after(s),
            final(self).stage() == stage_after(old(self).stage(), old(self).in_flight(), s),
            final(self).in_flight() == old(self).in_flight(),
            final(self).acknowledged() == old(self).acknowledged(),
    {
        let s = self.channel.on_sent(rc);
        self.advance(&s);
        s
    }

    /// Takes the worker's status reply to the command in flight.
    pub fn on_status(&mut self, rc: i32) -> (s: Step)
        requires
            old(self).phase() == Phase::AwaitingStatus,
        ensures
            s == Step::Finish(outcome_of(rc)),
            final(self).phase() == Phase::Idle,
            final(self).stage() == stage_after(old(self).stage(), old(self).in_flight(), s),
            final(self).in_flight() == old(self).in_flight(),
            final(self).acknowledged() == old(self).acknowledged(),
    {
        let s = self.channel.on_status(rc);
        self.advance(&s);
        s
    }

    fn advance(&mut self, s: &Step)
        ensures
            final(self).stage() == stage_after(old(self).stage(), old(self).in_flight(), *s),
            final(self).in_flight() == old(self).in_flight(),
            final(self).channel == old(self).channel,
    {
        let done = match s {
            Step::Finish(Ok(())) => true,
            _ => false,
        };
        if done {
            self.stage = match self.in_flight {
                MonitorCommand::Listen => match self.stage {
                    MonitorStage::Started => MonitorStage::Started,
                    _ => MonitorStage::Configured,
                },
                MonitorCommand::Start => MonitorStage::Started,
                MonitorCommand::Verbose => self.stage,
            };
        }
    }

    /// Classifies the next event message, given its first frame as read
    /// from the stream; `None` stands for a failed read or a message with no
    /// frame.
    pub fn get_attr(&self, frame: Option<Vec<u8>>) -> (r: Result<
        Result<ZMonitorEvents, Vec<u8>>,
        ControlError,
    >)
        ensures
            match frame {
                None => r == Err::<Result<ZMonitorEvents, Vec<u8>>, ControlError>(
                    ControlError::Channel,
                ),
                Some(f) => r is Ok && event_frame_outcome(r->Ok_0, f@),
            },
    {
        match frame {
            None => Err(ControlError::Channel),
            Some(f) => Ok(decode_event(f)),
        }
    }
}

} // verus!
