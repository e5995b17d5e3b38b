//! The host's side: which of its events asks for shutdown, and what a failed
//! send amounts to.

use crate::channel::SendError;
use crate::fault::Fault;
use crate::signal::TERMINATE;
use vstd::prelude::*;

verus! {

/// An event of the application host, as far as shutdown is concerned.
#[derive(Clone, Copy, Debug, PartialEq, Eq, Structural)]
pub enum HostEvent {
    /// The main window has been destroyed.
    WindowDestroyed,
    /// Anything else.
    Other,
}

/// The value to send on `event`: the termination notice when the main window
/// has been destroyed, nothing on any other event.
pub open spec fn notice_for(event: HostEvent) -> Option<i32> {
    match event {
        HostEvent::WindowDestroyed => Some(TERMINATE),
        HostEvent::Other => None,
    }
}

/// The fault behind the answer to a send: a closed channel is one, to be
/// logged; an accepted or a waiting send is none.
pub open spec fn fault_of_send(answer: Result<(), SendError>) -> Option<Fault> {
    match answer {
        Err(SendError::ChannelClosed) => Some(Fault::SendOnClosedChannel),
        _ => None,
    }
}

/// Decides what the host sends on `event`.
pub fn shutdown_notice(event: HostEvent) -> (notice: Option<i32>)
    ensures
        notice == notice_for(event),
{
    match event {
        HostEvent::WindowDestroyed => Some(TERMINATE),
        HostEvent::Other => None,
    }
}

/// Decides what the host reports after a send.
pub fn send_fault(answer: Result<(), SendError>) -> (fault: Option<Fault>)
    ensures
        fault == fault_of_send(answer),
        fault is Some ==> fault->Some_0.severity_of() == crate::fault::Severity::Logged,
{
    match answer {
        Err(SendError::ChannelClosed) => Some(Fault::SendOnClosedChannel),
        Err(SendError::Full) => None,
        Ok(()) => None,
    }
}

} // verus!
