//! Supervisor for a sidecar HTTP service.
//!
//! The library holds the decision logic of a process supervisor: the
//! lifecycle state machine with its cooldown gate and restart budget, the
//! port-conflict resolution policy, the parsers that extract process ids
//! from the platform's socket-inspection tools, and the construction of the
//! launch command. Everything that touches the operating system (sockets,
//! subprocesses, the filesystem, the clock) stays with the caller, which
//! feeds the outcomes of those calls back into the state machines here.

pub mod launch;
pub mod laws;
pub mod numfmt;
pub mod ports;
pub mod reclaim;
pub mod status;
pub mod supervisor;
