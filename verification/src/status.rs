//! Service status and error kinds.

use vstd::prelude::*;
use vstd::string::StringExecFns;

use crate::numfmt::{append_dec_u64, dec_str};

verus! {

/// The lifecycle state of the supervised service.
#[derive(Clone, Copy, Debug, PartialEq, Eq, Structural)]
pub enum ServiceStatus {
    /// No child process is supervised; the initial state.
    Stopped,
    /// A child process was spawned and is believed to be alive.
    Running,
    /// The last spawn failed or the restart budget is exhausted.
    Failed,
}

/// The failures a supervisor operation can report.
#[derive(Clone, Copy, Debug, PartialEq, Eq, Structural)]
pub enum ServiceError {
    /// A start was attempted before the restart cooldown had elapsed; the
    /// payload is how many whole seconds of the cooldown remain.
    CooldownActive(u64),
    /// Port resolution ran out of candidate ports.
    PortResolutionExhausted,
    /// The working directory for the launch does not exist.
    WorkingDirectoryMissing,
    /// Deploying the bundled service artifacts failed.
    ResourceDeployFailure,
    /// Spawning the child process failed.
    SpawnFailure,
    /// Killing the child process failed.
    TerminationFailure,
}

impl ServiceError {
    /// The descriptive failure text each error carries to the caller.
    pub open spec fn message_spec(self) -> Seq<char> {
        match self {
            ServiceError::CooldownActive(secs) => "service restart attempted too soon; wait "@
                + dec_str(secs as nat) + " seconds before retrying"@,
            ServiceError::PortResolutionExhausted => "no usable port could be resolved"@,
            ServiceError::WorkingDirectoryMissing => "working directory for the launch was not found"@,
            ServiceError::ResourceDeployFailure => "deploying the bundled service artifacts failed"@,
            ServiceError::SpawnFailure => "failed to start the service process"@,
            ServiceError::TerminationFailure => "failed to kill the service process"@,
        }
    }

    /// Renders the error as its descriptive failure text.
    pub fn message(&self) -> (r: String)
        ensures
            r@ == self.message_spec(),
    {
        match self {
            ServiceError::CooldownActive(secs) => {
                let mut s = String::from_str("service restart attempted too soon; wait ");
                append_dec_u64(&mut s, *secs);
                s.append(" seconds before retrying");
                s
            },
            ServiceError::PortResolutionExhausted => String::from_str(
                "no usable port could be resolved",
            ),
            ServiceError::WorkingDirectoryMissing => String::from_str(
                "working directory for the launch was not found",
            ),
            ServiceError::ResourceDeployFailure => String::from_str(
                "deploying the bundled service artifacts failed",
            ),
            ServiceError::SpawnFailure => String::from_str("failed to start the service process"),
            ServiceError::TerminationFailure => String::from_str(
                "failed to kill the service process",
            ),
        }
    }
}

} // verus!
