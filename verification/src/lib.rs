//! Supervision of one backend process: the rules by which a host application
//! starts a sidecar as a process group and has it killed, once, on shutdown.
//!
//! The crate decides; it performs no input or output. A host reports what the
//! operating system did and carries out the reaction it is handed.

pub mod channel;
pub mod fault;
pub mod greeting;
pub mod host;
pub mod launcher;
pub mod lifecycle;
pub mod signal;
pub mod supervisor;
