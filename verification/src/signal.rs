//! The shutdown signal: an integer on the wire, of which one value means
//! "terminate now".

use vstd::prelude::*;

verus! {

/// The value that asks the supervisor to kill the backend.
pub const TERMINATE: i32 = -1;

/// What a value taken from the shutdown channel means.
#[derive(Clone, Copy, Debug, PartialEq, Eq, Structural)]
pub enum Notice {
    /// The termination notice.
    Terminate,
    /// Any other value; the protocol defines none.
    Unknown(i32),
}

/// The meaning of `value`: `TERMINATE` is the notice, everything else is unknown.
pub open spec fn notice_of(value: i32) -> Notice {
    if value == TERMINATE {
        Notice::Terminate
    } else {
        Notice::Unknown(value)
    }
}

/// Reads a received value.
pub fn decode(value: i32) -> (notice: Notice)
    ensures
        notice == notice_of(value),
{
    if value == TERMINATE {
        Notice::Terminate
    } else {
        Notice::Unknown(value)
    }
}

} // verus!
