//! The command channel's request/reply protocol: every command is sent
//! whole and, where it is acknowledged, answered by exactly one status reply
//! before the next command may go out.

use vstd::prelude::*;
use crate::command::Command;
use crate::error::ControlError;

verus! {

/// Where the channel stands in the exchange of one command.
#[derive(Debug, Clone, Copy, PartialEq, Eq, Structural)]
pub enum Phase {
    /// No command in flight: a new one may be submitted.
    Idle,
    /// A command was handed out for sending; the send's outcome is due.
    Sending,
    /// The command went out; the worker's status reply is due.
    AwaitingStatus,
}

/// What the driver of the channel is to do next.
#[derive(Debug)]
pub enum Step {
    /// Send these frames to the worker as one message.
    Transmit(Command),
    /// Block until the worker posts its status reply.
    AwaitStatus,
    /// The operation is over, with this outcome.
    Finish(Result<(), ControlError>),
}

/// Whether a transport return code reports success (`-1` is failure).
pub open spec fn succeeded(rc: i32) -> bool {
    rc != -1
}

/// The outcome of a channel-level exchange given a return code.
pub open spec fn outcome_of(rc: i32) -> Result<(), ControlError> {
    if succeeded(rc) {
        Ok(())
    } else {
        Err(ControlError::Channel)
    }
}

/// The step that follows the send of a command, acknowledged or not.
pub open spec fn step_after_send(rc: i32, acknowledged: bool) -> Step {
    if succeeded(rc) && acknowledged {
        Step::AwaitStatus
    } else {
        Step::Finish(outcome_of(rc))
    }
}

/// The phase in which a step leaves the channel.
pub open spec fn phase_after(s: Step) -> Phase {
    match s {
        Step::Transmit(_) => Phase::Sending,
        Step::AwaitStatus => Phase::AwaitingStatus,
        Step::Finish(_) => Phase::Idle,
    }
}

/// One end of a command channel, driving a single worker.
pub struct CommandChannel {
    phase: Phase,
    acknowledged: bool,
}

impl CommandChannel {
    pub closed spec fn phase(&self) -> Phase {
        self.phase
    }

    /// Whether the command in flight waits for a status reply.
    pub closed spec fn acknowledged(&self) -> bool {
        self.acknowledged
    }

    /// A channel with no command in flight.
    pub fn new() -> (r: CommandChannel)
        ensures
            r.phase() == Phase::Idle,
            !r.acknowledged(),
    {
        CommandChannel { phase: Phase::Idle, acknowledged: false }
    }

    pub fn current_phase(&self) -> (r: Phase)
        ensures
            r == self.phase(),
    {
        self.phase
    }

    /// Hands out a command for sending; `acknowledged` says whether a status
    /// reply is to be awaited after it.
    pub fn submit(&mut self, cmd: Command, acknowledged: bool) -> (s: Step)
        requires
            old(self).phase() == Phase::Idle,
        ensures
            s is Transmit && s->Transmit_0@ == cmd@,
            final(self).phase() == Phase::Sending,
            final(self).acknowledged() == acknowledged,
    {
        self.phase = Phase::Sending;
        self.acknowledged = acknowledged;
        Step::Transmit(cmd)
    }

    /// Takes the return code of the send.
    pub fn on_sent(&mut self, rc: i32) -> (s: Step)
        requires
            old(self).phase() == Phase::Sending,
        ensures
            s == step_after_send(rc, old(self).acknowledged()),
            final(self).phase() == phase_after(s),
            final(self).acknowledged() == old(self).acknowledged(),
    {
        if rc == -1 {
            self.phase = Phase::Idle;
            Step::Finish(Err(ControlError::Channel))
        } else if self.acknowledged {
            self.phase = Phase::AwaitingStatus;
            Step::AwaitStatus
        } else {
            self.phase = Phase::Idle;
            Step::Finish(Ok(()))
        }
    }

    /// Takes the worker's status reply.
    pub fn on_status(&mut self, rc: i32) -> (s: Step)
        requires
            old(self).phase() == Phase::AwaitingStatus,
        ensures
            s == Step::Finish(outcome_of(rc)),
            final(self).phase() == Phase::Idle,
            final(self).acknowledged() == old(self).acknowledged(),
    {
        self.phase = Phase::Idle;
        if rc == -1 {
            Step::Finish(Err(ControlError::Channel))
        } else {
            Step::Finish(Ok(()))
        }
    }
}

} // verus!
