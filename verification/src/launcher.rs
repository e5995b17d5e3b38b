//! Starting the backend: what the host found, and what follows from it.

use crate::fault::Fault;
use vstd::prelude::*;

verus! {

/// What happened when the host tried to start the backend executable.
#[derive(Clone, Copy, Debug, PartialEq, Eq, Structural)]
pub enum LaunchReport {
    /// The executable could not be resolved; nothing was started.
    Unresolved,
    /// The executable was resolved but the operating system did not start it.
    SpawnRefused,
    /// The backend runs as the leader of a new process group with this id.
    Started { pgid: u32 },
}

/// The running backend and every process it spawns, as one unit to kill.
///
/// The handle cannot be copied: whoever holds it is the one owner.
#[derive(Debug, PartialEq, Eq)]
pub struct ChildProcessGroup {
    pgid: u32,
}

impl ChildProcessGroup {
    /// The id of the process group.
    pub closed spec fn id(&self) -> u32 {
        self.pgid
    }

    /// The id of the process group.
    pub fn pgid(&self) -> (pgid: u32)
        ensures
            pgid == self.id(),
    {
        self.pgid
    }
}

/// The fault a report stands for, if it is one.
pub open spec fn launch_fault(report: LaunchReport) -> Option<Fault> {
    match report {
        LaunchReport::Unresolved => Some(Fault::ExecutableNotResolved),
        LaunchReport::SpawnRefused => Some(Fault::SpawnFailed),
        LaunchReport::Started { .. } => None,
    }
}

/// Turns the host's report into the handle of the new process group, or into
/// the fatal fault that ends startup.
pub fn launch(report: LaunchReport) -> (outcome: Result<ChildProcessGroup, Fault>)
    ensures
        match report {
            LaunchReport::Started { pgid } => outcome is Ok && outcome->Ok_0.id() == pgid,
            _ => outcome is Err && Some(outcome->Err_0) == launch_fault(report),
        },
        outcome is Err ==> outcome->Err_0.severity_of() == crate::fault::Severity::Fatal,
{
    match report {
        LaunchReport::Unresolved => Err(Fault::ExecutableNotResolved),
        LaunchReport::SpawnRefused => Err(Fault::SpawnFailed),
        LaunchReport::Started { pgid } => Ok(ChildProcessGroup { pgid }),
    }
}

} // verus!
