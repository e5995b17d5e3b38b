//! The supervisor: it owns the process group, waits for one notice and
//! reacts to it once.

use crate::channel::{Channel, ChannelModel, RecvError};
use crate::fault::Fault;
use crate::launcher::{launch, launch_fault, ChildProcessGroup, LaunchReport};
use crate::signal::{decode, notice_of, Notice};
use vstd::prelude::*;

verus! {

/// Where the supervisor stands. `Terminated` is final.
#[derive(Clone, Copy, Debug, PartialEq, Eq, Structural)]
pub enum Phase {
    /// Waiting for the notice; the backend is taken to be running.
    Running,
    /// The one receive has completed; the supervisor does nothing more.
    Terminated,
}

/// What the supervisor's thread has to do next.
#[derive(Clone, Copy, Debug, PartialEq, Eq, Structural)]
pub enum Reaction {
    /// Nothing has arrived yet: wait and ask again.
    KeepWaiting,
    /// The notice arrived: kill this process group, then exit.
    KillGroup { pgid: u32 },
    /// The receive ended otherwise: report the fault and exit without killing.
    Fail(Fault),
    /// The supervisor had finished before; there is nothing to do.
    Finished,
}

/// The supervisor as a mathematical value.
pub struct SupervisorModel {
    pub phase: Phase,
    pub pgid: u32,
}

impl SupervisorModel {
    /// A supervisor that has just been handed its process group.
    pub open spec fn started(pgid: u32) -> SupervisorModel {
        SupervisorModel { phase: Phase::Running, pgid }
    }

    /// The same supervisor, finished.
    pub open spec fn terminated(self) -> SupervisorModel {
        SupervisorModel { phase: Phase::Terminated, ..self }
    }

    /// The reaction to one answer of the channel.
    ///
    /// A running supervisor keeps waiting on `Empty` and finishes on every
    /// other answer: with a kill on the notice, with a fault on an unknown
    /// value or a closed channel. A finished supervisor only says so.
    pub open spec fn react(self, received: Result<i32, RecvError>) -> (SupervisorModel, Reaction) {
        match self.phase {
            Phase::Terminated => (self, Reaction::Finished),
            Phase::Running => match received {
                Err(RecvError::Empty) => (self, Reaction::KeepWaiting),
                Err(RecvError::ChannelClosed) => (
                    self.terminated(),
                    Reaction::Fail(Fault::ReceiveOnClosedChannel),
                ),
                Ok(value) => match notice_of(value) {
                    Notice::Terminate => (
                        self.terminated(),
                        Reaction::KillGroup { pgid: self.pgid },
                    ),
                    Notice::Unknown(other) => (
                        self.terminated(),
                        Reaction::Fail(Fault::UnexpectedValue(other)),
                    ),
                },
            },
        }
    }

    /// One turn of the supervisor's thread on `channel`: a running supervisor
    /// asks the channel and reacts; a finished one leaves the channel alone.
    pub open spec fn attempt(self, channel: ChannelModel) -> (
        SupervisorModel,
        ChannelModel,
        Reaction,
    ) {
        match self.phase {
            Phase::Terminated => (self, channel, Reaction::Finished),
            Phase::Running => {
                let (channel_after, received) = channel.recv();
                let (supervisor_after, reaction) = self.react(received);
                (supervisor_after, channel_after, reaction)
            },
        }
    }
}

/// The owner of the backend's process group.
#[derive(Debug)]
pub struct Supervisor {
    phase: Phase,
    group: ChildProcessGroup,
}

impl View for Supervisor {
    type V = SupervisorModel;

    closed spec fn view(&self) -> SupervisorModel {
        SupervisorModel { phase: self.phase, pgid: self.group.id() }
    }
}

impl Supervisor {
    /// Takes ownership of a launched process group and starts running.
    pub fn new(group: ChildProcessGroup) -> (supervisor: Supervisor)
        ensures
            supervisor@ == SupervisorModel::started(group.id()),
    {
        Supervisor { phase: Phase::Running, group }
    }

    /// Constructs the supervisor from the host's launch report: running when
    /// the backend was started, the fatal fault otherwise.
    pub fn start(report: LaunchReport) -> (outcome: Result<Supervisor, Fault>)
        ensures
            match report {
                LaunchReport::Started { pgid } => outcome is Ok && outcome->Ok_0@
                    == SupervisorModel::started(pgid),
                _ => outcome is Err && Some(outcome->Err_0) == launch_fault(report),
            },
    {
        match launch(report) {
            Ok(group) => Ok(Supervisor::new(group)),
            Err(fault) => Err(fault),
        }
    }

    /// Where the supervisor stands.
    pub fn phase(&self) -> (phase: Phase)
        ensures
            phase == self@.phase,
    {
        self.phase
    }

    /// The id of the process group the supervisor owns.
    pub fn pgid(&self) -> (pgid: u32)
        ensures
            pgid == self@.pgid,
    {
        self.group.pgid()
    }

    /// Reacts to one answer of the channel.
    pub fn react(&mut self, received: Result<i32, RecvError>) -> (reaction: Reaction)
        ensures
            (final(self)@, reaction) == old(self)@.react(received),
    {
        match self.phase {
            Phase::Terminated => Reaction::Finished,
            Phase::Running => match received {
                Err(RecvError::Empty) => Reaction::KeepWaiting,
                Err(RecvError::ChannelClosed) => {
                    self.phase = Phase::Terminated;
                    Reaction::Fail(Fault::ReceiveOnClosedChannel)
                },
                Ok(value) => {
                    self.phase = Phase::Terminated;
                    match decode(value) {
                        Notice::Terminate => Reaction::KillGroup { pgid: self.group.pgid() },
                        Notice::Unknown(other) => Reaction::Fail(Fault::UnexpectedValue(other)),
                    }
                },
            },
        }
    }

    /// One turn of the supervisor's thread: asks `channel` once, unless the
    /// supervisor has finished, and reacts to the answer.
    pub fn attempt(&mut self, channel: &mut Channel) -> (reaction: Reaction)
        ensures
            (final(self)@, final(channel)@, reaction) == old(self)@.attempt(old(channel)@),
    {
        match self.phase {
            Phase::Terminated => Reaction::Finished,
            Phase::Running => {
                let received = channel.recv();
                self.react(received)
            },
        }
    }
}

} // verus!
