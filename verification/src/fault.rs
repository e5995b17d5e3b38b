//! What can go wrong, and how much it matters.
//!
//! Failures before the backend runs end the application. Failures afterwards
//! concern the supervisor alone: they are logged and nothing is retried.

use vstd::prelude::*;
use vstd::string::*;

verus! {

/// A failure the host reports or the supervisor detects.
#[derive(Clone, Copy, Debug, PartialEq, Eq, Structural)]
pub enum Fault {
    /// The backend executable could not be resolved.
    ExecutableNotResolved,
    /// The operating system did not start the backend.
    SpawnFailed,
    /// The process group could not be killed; it may be gone already.
    KillFailed,
    /// The notice was sent after the supervisor had dropped its end.
    SendOnClosedChannel,
    /// The sender was dropped without a notice ever being sent.
    ReceiveOnClosedChannel,
    /// A value other than the termination notice arrived.
    UnexpectedValue(i32),
}

/// What the host does about a fault.
#[derive(Clone, Copy, Debug, PartialEq, Eq, Structural)]
pub enum Severity {
    /// Startup is abandoned: the application must not run without its backend.
    Fatal,
    /// The fault is logged and the application goes on.
    Logged,
}

impl Fault {
    /// Faults of startup are fatal; every later fault is only logged.
    pub open spec fn severity_of(self) -> Severity {
        match self {
            Fault::ExecutableNotResolved | Fault::SpawnFailed => Severity::Fatal,
            _ => Severity::Logged,
        }
    }

    /// The line that reports this fault.
    pub open spec fn text(self) -> Seq<char> {
        match self {
            Fault::ExecutableNotResolved => "[Error] Failed to create backend binary command"@,
            Fault::SpawnFailed => "[Error] spawning api server process."@,
            Fault::KillFailed => "[Error] killing api server process."@,
            Fault::SendOnClosedChannel => "[Error] sending msg."@,
            Fault::ReceiveOnClosedChannel => "[Error] receiving msg: channel closed."@,
            Fault::UnexpectedValue(_) => "[Error] receiving msg: unexpected value."@,
        }
    }

    /// Classifies the fault.
    pub fn severity(&self) -> (severity: Severity)
        ensures
            severity == self.severity_of(),
    {
        match self {
            Fault::ExecutableNotResolved => Severity::Fatal,
            Fault::SpawnFailed => Severity::Fatal,
            Fault::KillFailed => Severity::Logged,
            Fault::SendOnClosedChannel => Severity::Logged,
            Fault::ReceiveOnClosedChannel => Severity::Logged,
            Fault::UnexpectedValue(_) => Severity::Logged,
        }
    }

    /// Whether the application has to abort.
    pub fn is_fatal(&self) -> (fatal: bool)
        ensures
            fatal == (self.severity_of() == Severity::Fatal),
    {
        match self.severity() {
            Severity::Fatal => true,
            Severity::Logged => false,
        }
    }

    /// The report line, as an owned string.
    pub fn message(&self) -> (line: String)
        ensures
            line@ == self.text(),
    {
        match self {
            Fault::ExecutableNotResolved => String::from_str(
                "[Error] Failed to create backend binary command",
            ),
            Fault::SpawnFailed => String::from_str("[Error] spawning api server process."),
            Fault::KillFailed => String::from_str("[Error] killing api server process."),
            Fault::SendOnClosedChannel => String::from_str("[Error] sending msg."),
            Fault::ReceiveOnClosedChannel => String::from_str(
                "[Error] receiving msg: channel closed.",
            ),
            Fault::UnexpectedValue(_) => String::from_str(
                "[Error] receiving msg: unexpected value.",
            ),
        }
    }
}

} // verus!
