//! The authentication gatekeeper: typed policy operations, each a command
//! confirmed by the worker's status reply.

use vstd::prelude::*;
use crate::channel::{phase_after, step_after_send, outcome_of, CommandChannel, Phase, Step};
use crate::command::{curve_location, Command};
use crate::error::ControlError;

verus! {

/// Drives the worker that holds the allow/deny policy and the PLAIN and
/// CURVE credential stores. All policy state lives in that worker; only one
/// gatekeeper may be attached per runtime context, since its worker binds a
/// fixed rendezvous point.
pub struct ZAuth {
    channel: CommandChannel,
}

impl ZAuth {
    pub closed spec fn phase(&self) -> Phase {
        self.channel.phase()
    }

    /// Whether the command in flight waits for a status reply.
    pub closed spec fn acknowledged(&self) -> bool {
        self.channel.acknowledged()
    }

    /// A gatekeeper over a freshly created worker; `attached` says whether
    /// the worker could be created.
    pub fn new(attached: bool) -> (r: Result<ZAuth, ControlError>)
        ensures
            attached <==> r is Ok,
            attached ==> r->Ok_0.phase() == Phase::Idle,
            !attached ==> r == Err::<ZAuth, ControlError>(ControlError::Instantiate),
    {
        if attached {
            Ok(ZAuth { channel: CommandChannel::new() })
        } else {
            Err(ControlError::Instantiate)
        }
    }

    pub fn current_phase(&self) -> (r: Phase)
        ensures
            r == self.phase(),
    {
        self.channel.current_phase()
    }

    fn submit(&mut self, cmd: Command) -> (s: Step)
        requires
            old(self).phase() == Phase::Idle,
        ensures
            s is Transmit && s->Transmit_0@ == cmd@,
            final(self).phase() == Phase::Sending,
            final(self).acknowledged(),
    {
        self.channel.submit(cmd, true)
    }

    /// Adds `address` to the allow-list; the address is passed on as given.
    pub fn allow(&mut self, address: &str) -> (s: Step)
        requires
            old(self).phase() == Phase::Idle,
        ensures
            s is Transmit && s->Transmit_0@ == seq!["ALLOW"@, address@],
            final(self).phase() == Phase::Sending,
            final(self).acknowledged(),
    {
        self.submit(Command::allow(address))
    }

    /// Adds `address` to the deny-list.
    pub fn deny(&mut self, address: &str) -> (s: Step)
        requires
            old(self).phase() == Phase::Idle,
        ensures
            s is Transmit && s->Transmit_0@ == seq!["DENY"@, address@],
            final(self).phase() == Phase::Sending,
            final(self).acknowledged(),
    {
        self.submit(Command::deny(address))
    }

    /// Reloads the PLAIN credential file at `filename`.
    pub fn load_plain(&mut self, filename: &str) -> (s: Step)
        requires
            old(self).phase() == Phase::Idle,
        ensures
            s is Transmit && s->Transmit_0@ == seq!["PLAIN"@, filename@],
            final(self).phase() == Phase::Sending,
            final(self).acknowledged(),
    {
        self.submit(Command::plain(filename))
    }

    /// Loads CURVE keys from `location`, or accepts any key when it is
    /// `None`.
    pub fn load_curve(&mut self, location: Option<&str>) -> (s: Step)
        requires
            old(self).phase() == Phase::Idle,
        ensures
            s is Transmit && s->Transmit_0@ == seq!["CURVE"@, curve_location(location)],
            final(self).phase() == Phase::Sending,
            final(self).acknowledged(),
    {
        self.submit(Command::curve(location))
    }

    /// GSSAPI is not part of the worker's protocol: this always fails and
    /// sends nothing.
    pub fn load_gssapi(&self) -> (r: Result<(), ControlError>)
        ensures
            r == Err::<(), ControlError>(ControlError::NotImplemented),
    {
        Err(ControlError::NotImplemented)
    }

    /// Toggles the worker's diagnostics, confirmed like any other command.
    pub fn verbose(&mut self) -> (s: Step)
        requires
            old(self).phase() == Phase::Idle,
        ensures
            s is Transmit && s->Transmit_0@ == seq!["VERBOSE"@],
            final(self).phase() == Phase::Sending,
            final(self).acknowledged(),
    {
        self.submit(Command::verbose())
    }

    /// Takes the return code of sending the command in flight.
    pub fn on_sent(&mut self, rc: i32) -> (s: Step)
        requires
            old(self).phase() == Phase::Sending,
        ensures
            s == step_after_send(rc, old(self).acknowledged()),
            final(self).phase() == phase_after(s),
            final(self).acknowledged() == old(self).acknowledged(),
    {
        self.channel.on_sent(rc)
    }

    /// Takes the worker's status reply to the command in flight.
    pub fn on_status(&mut self, rc: i32) -> (s: Step)
        requires
            old(self).phase() == Phase::AwaitingStatus,
        ensures
            s == Step::Finish(outcome_of(rc)),
            final(self).phase() == Phase::Idle,
            final(self).acknowledged() == old(self).acknowledged(),
    {
        self.channel.on_status(rc)
    }
}

} // verus!
