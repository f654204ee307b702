//! The supervisor's shared state and its lifecycle state machine.
//!
//! The supervisor serializes every decision of the lifecycle — the cooldown
//! gate of a start attempt, the bookkeeping after a spawn, the stop path,
//! and the monitor's restart policy — as transitions on [`MastraService`].
//! The blocking work those decisions ask for (binding probe sockets,
//! spawning or killing processes, sleeping) is carried out by the caller,
//! which reports each outcome back; the transition for every possible
//! outcome is specified and verified here.

use vstd::prelude::*;
use vstd::string::StringExecFns;

use crate::numfmt::{append_dec_u64, dec_str};
use crate::status::{ServiceError, ServiceStatus};

verus! {

/// Default cap on consecutive failed start attempts.
pub const DEFAULT_MAX_RESTART_ATTEMPTS: u32 = 5;

/// Default minimum interval between two start attempts, in milliseconds.
pub const DEFAULT_RESTART_COOLDOWN_MS: u64 = 5000;

/// Grace period before the monitor's first liveness poll, in milliseconds.
pub const MONITOR_GRACE_MS: u64 = 2000;

/// Interval between two monitor liveness polls, in milliseconds.
pub const MONITOR_POLL_INTERVAL_MS: u64 = 5000;

/// The supervisor's record of the supervised service.
///
/// The child process itself is owned by the caller; `has_child` says
/// whether the supervisor currently accounts for a spawned child, and
/// every transition states how it changes.
pub struct MastraService {
    /// Current candidate port; conflict resolution may move it past the
    /// port the supervisor was constructed with.
    pub port: u16,
    /// Whether the service launches from deployed artifacts rather than
    /// from a development workspace.
    pub is_production: bool,
    /// Current lifecycle state.
    pub status: ServiceStatus,
    /// Whether a spawned child process is currently accounted for.
    pub has_child: bool,
    /// Time of the most recent start attempt on the caller's monotonic
    /// clock, in milliseconds; `None` before the first attempt.
    pub last_start_ms: Option<u64>,
    /// Consecutive failed start attempts since the last successful start.
    pub restart_attempts: u32,
    /// Cap on `restart_attempts`; reaching it halts automatic restarts.
    pub max_restart_attempts: u32,
    /// Minimum interval between two start attempts, in milliseconds.
    pub restart_cooldown_ms: u64,
    /// Whether tearing the supervisor down should also kill the child.
    pub stop_on_drop: bool,
}

/// The answer of the cooldown gate at the head of a start attempt.
#[derive(Clone, Copy, Debug, PartialEq, Eq, Structural)]
pub enum StartGate {
    /// The service already runs with a live handle; the start is a no-op.
    AlreadyRunning,
    /// The cooldown since the previous attempt has not elapsed; the
    /// payload is how many whole seconds of it remain.
    CooldownActive(u64),
    /// The attempt may proceed to port resolution and launch.
    Proceed,
}

/// What the monitor should do after one liveness poll.
#[derive(Clone, Copy, Debug, PartialEq, Eq, Structural)]
pub enum MonitorAction {
    /// Stop watching: the service is no longer running, or the restart
    /// budget is exhausted.
    Exit,
    /// The child is alive; poll again after the poll interval.
    KeepWatching,
    /// The child died within budget: a new start attempt should follow.
    Restart,
}

impl MastraService {
    /// Well-formedness: the attempt counter respects its cap, and a child
    /// handle is accounted for exactly while the service counts as
    /// running.
    pub open spec fn wf(&self) -> bool {
        &&& self.restart_attempts <= self.max_restart_attempts
        &&& self.has_child == (self.status == ServiceStatus::Running)
    }

    /// The state a freshly constructed supervisor is in.
    pub open spec fn initial(port: u16, is_production: bool) -> MastraService {
        MastraService {
            port,
            is_production,
            status: ServiceStatus::Stopped,
            has_child: false,
            last_start_ms: None,
            restart_attempts: 0,
            max_restart_attempts: DEFAULT_MAX_RESTART_ATTEMPTS,
            restart_cooldown_ms: DEFAULT_RESTART_COOLDOWN_MS,
            stop_on_drop: true,
        }
    }

    /// Whether `now_ms` still falls within the cooldown window opened by
    /// the most recent start attempt.
    pub open spec fn within_cooldown(self, now_ms: u64) -> bool {
        match self.last_start_ms {
            Some(t) => now_ms < t + self.restart_cooldown_ms,
            None => false,
        }
    }

    /// Whole seconds of the cooldown window that remain at `now_ms`.
    pub open spec fn cooldown_remaining_secs(self, now_ms: u64) -> u64
        recommends
            self.within_cooldown(now_ms),
    {
        match self.last_start_ms {
            Some(t) => (((t + self.restart_cooldown_ms) - now_ms) / 1000) as u64,
            None => 0,
        }
    }

    /// The admission of a start attempt at `now_ms`: a running
    /// service makes the start a no-op, an attempt within the cooldown is
    /// rejected, and anything else may proceed.
    pub open spec fn gate_decision(self, now_ms: u64) -> StartGate {
        if self.status == ServiceStatus::Running && self.has_child {
            StartGate::AlreadyRunning
        } else if self.within_cooldown(now_ms) {
            StartGate::CooldownActive(self.cooldown_remaining_secs(now_ms))
        } else {
            StartGate::Proceed
        }
    }

    /// The state after admission: only a `Proceed` answer touches it, by
    /// recording `now_ms` as the time of this start attempt.
    pub open spec fn gate_post(self, now_ms: u64) -> MastraService {
        if self.gate_decision(now_ms) == StartGate::Proceed {
            MastraService { last_start_ms: Some(now_ms), ..self }
        } else {
            self
        }
    }

    /// The state after a successful spawn: running, with a child handle
    /// accounted for and the failure counter cleared.
    pub open spec fn spawn_ok_post(self) -> MastraService {
        MastraService {
            status: ServiceStatus::Running,
            has_child: true,
            restart_attempts: 0,
            ..self
        }
    }

    /// The state after a failed spawn: failed, with one more failed
    /// attempt counted, saturating at the cap.
    pub open spec fn spawn_failed_post(self) -> MastraService {
        MastraService {
            status: ServiceStatus::Failed,
            restart_attempts: if self.restart_attempts < self.max_restart_attempts {
                (self.restart_attempts + 1) as u32
            } else {
                self.restart_attempts
            },
            ..self
        }
    }

    /// The state after a stop: a successful kill, like a stop with no
    /// child, ends in `Stopped`; the handle is cleared only on success. A
    /// failed kill changes nothing — the handle is retained and the prior
    /// status stands.
    pub open spec fn stop_post(self, kill_result: Option<bool>) -> MastraService {
        match kill_result {
            None => MastraService { status: ServiceStatus::Stopped, ..self },
            Some(true) => MastraService {
                status: ServiceStatus::Stopped,
                has_child: false,
                ..self
            },
            Some(false) => self,
        }
    }

    /// The monitor's decision after one liveness poll: exit when the
    /// service is no longer running or the restart budget is spent, keep
    /// watching while the child lives, and otherwise ask for a restart.
    pub open spec fn monitor_decision(self, child_alive: bool) -> MonitorAction {
        if self.status != ServiceStatus::Running {
            MonitorAction::Exit
        } else if child_alive {
            MonitorAction::KeepWatching
        } else if self.restart_attempts < self.max_restart_attempts {
            MonitorAction::Restart
        } else {
            MonitorAction::Exit
        }
    }

    /// The state after one monitor poll. A restart decision counts the
    /// attempt, releases the dead child's handle and steps to `Stopped` so
    /// that the following start attempt sees a stopped service; an
    /// exhausted budget steps to `Failed`.
    pub open spec fn monitor_post(self, child_alive: bool) -> MastraService {
        match self.monitor_decision(child_alive) {
            MonitorAction::Exit => if self.status == ServiceStatus::Running && !child_alive {
                MastraService { status: ServiceStatus::Failed, has_child: false, ..self }
            } else {
                self
            },
            MonitorAction::KeepWatching => self,
            MonitorAction::Restart => MastraService {
                status: ServiceStatus::Stopped,
                has_child: false,
                restart_attempts: (self.restart_attempts + 1) as u32,
                ..self
            },
        }
    }

    /// The state after a start attempt the monitor initiated has failed.
    pub open spec fn restart_failed_post(self) -> MastraService {
        MastraService { status: ServiceStatus::Failed, ..self }
    }

    /// The state after teardown releases the accounted child without a
    /// kill: the child runs on detached, unsupervised.
    pub open spec fn detach_post(self) -> MastraService {
        MastraService { status: ServiceStatus::Stopped, has_child: false, ..self }
    }

    /// The URL of the service at port `port`.
    pub open spec fn url_of(port: u16) -> Seq<char> {
        "http://localhost:"@ + dec_str(port as nat)
    }

    /// Creates a supervisor for the given port and execution mode, stopped
    /// and with its full restart budget.
    pub fn new(port: u16, is_production: bool) -> (r: MastraService)
        ensures
            r == MastraService::initial(port, is_production),
            r.wf(),
    {
        MastraService {
            port,
            is_production,
            status: ServiceStatus::Stopped,
            has_child: false,
            last_start_ms: None,
            restart_attempts: 0,
            max_restart_attempts: DEFAULT_MAX_RESTART_ATTEMPTS,
            restart_cooldown_ms: DEFAULT_RESTART_COOLDOWN_MS,
            stop_on_drop: true,
        }
    }

    /// Gates a start attempt at `now_ms`: answers whether the attempt is a
    /// no-op, rejected by the cooldown, or allowed to proceed, and records
    /// the attempt time in the last case.
    ///
    /// `now_ms` must come from a monotonic clock, so it is never earlier
    /// than the recorded time of the previous attempt.
    pub fn start_gate(&mut self, now_ms: u64) -> (r: StartGate)
        requires
            old(self).wf(),
            match old(self).last_start_ms {
                Some(t) => t <= now_ms,
                None => true,
            },
        ensures
            final(self).wf(),
            r == old(self).gate_decision(now_ms),
            *final(self) == old(self).gate_post(now_ms),
    {
        if self.status == ServiceStatus::Running && self.has_child {
            return StartGate::AlreadyRunning;
        }
        if let Some(t) = self.last_start_ms {
            let elapsed = now_ms - t;
            if elapsed < self.restart_cooldown_ms {
                let remaining_secs = (self.restart_cooldown_ms - elapsed) / 1000;
                return StartGate::CooldownActive(remaining_secs);
            }
        }
        self.last_start_ms = Some(now_ms);
        StartGate::Proceed
    }

    /// Records the chosen port after conflict resolution, so that the
    /// launch and `get_url` reflect it.
    pub fn adopt_port(&mut self, port: u16)
        ensures
            *final(self) == (MastraService { port, ..*old(self) }),
    {
        self.port = port;
    }

    /// Books the outcome of a spawn. Success makes the service running
    /// with a fresh restart budget; failure makes it failed, counts the
    /// attempt, and reports `SpawnFailure`.
    ///
    /// A spawn only happens while no child is accounted for.
    pub fn apply_spawn_result(&mut self, spawn_ok: bool) -> (r: Result<(), ServiceError>)
        requires
            old(self).wf(),
            !old(self).has_child,
        ensures
            final(self).wf(),
            spawn_ok ==> *final(self) == old(self).spawn_ok_post() && r == Ok::<
                (),
                ServiceError,
            >(()),
            !spawn_ok ==> *final(self) == old(self).spawn_failed_post() && r == Err::<
                (),
                ServiceError,
            >(ServiceError::SpawnFailure),
    {
        if spawn_ok {
            self.status = ServiceStatus::Running;
            self.has_child = true;
            self.restart_attempts = 0;
            Ok(())
        } else {
            self.status = ServiceStatus::Failed;
            if self.restart_attempts < self.max_restart_attempts {
                self.restart_attempts = self.restart_attempts + 1;
            }
            Err(ServiceError::SpawnFailure)
        }
    }

    /// Books the outcome of a stop. The caller kills the child exactly
    /// when one is accounted for and reports whether the kill succeeded;
    /// with no child the stop is an idempotent success. A failed kill
    /// reports `TerminationFailure` and changes nothing: the handle stays
    /// accounted for and the status stands.
    pub fn stop(&mut self, kill_result: Option<bool>) -> (r: Result<(), ServiceError>)
        requires
            old(self).wf(),
            kill_result.is_some() == old(self).has_child,
        ensures
            final(self).wf(),
            *final(self) == old(self).stop_post(kill_result),
            r == if kill_result == Some(false) {
                Err::<(), ServiceError>(ServiceError::TerminationFailure)
            } else {
                Ok::<(), ServiceError>(())
            },
    {
        match kill_result {
            None => {
                self.status = ServiceStatus::Stopped;
                Ok(())
            },
            Some(true) => {
                self.status = ServiceStatus::Stopped;
                self.has_child = false;
                Ok(())
            },
            Some(false) => Err(ServiceError::TerminationFailure),
        }
    }

    /// Books one monitor liveness poll and answers what the monitor should
    /// do next. `child_alive` reports whether the spawned child still runs;
    /// without an accounted child there is nothing to be alive.
    pub fn monitor_poll(&mut self, child_alive: bool) -> (r: MonitorAction)
        requires
            old(self).wf(),
            child_alive ==> old(self).has_child,
        ensures
            final(self).wf(),
            r == old(self).monitor_decision(child_alive),
            *final(self) == old(self).monitor_post(child_alive),
    {
        if !(self.status == ServiceStatus::Running) {
            return MonitorAction::Exit;
        }
        if child_alive {
            return MonitorAction::KeepWatching;
        }
        if self.restart_attempts < self.max_restart_attempts {
            self.status = ServiceStatus::Stopped;
            self.has_child = false;
            self.restart_attempts = self.restart_attempts + 1;
            MonitorAction::Restart
        } else {
            self.status = ServiceStatus::Failed;
            self.has_child = false;
            MonitorAction::Exit
        }
    }

    /// Books the failure of a start attempt the monitor initiated: the
    /// service is marked failed and the monitor will exit.
    pub fn monitor_restart_failed(&mut self)
        requires
            old(self).wf(),
            !old(self).has_child,
        ensures
            final(self).wf(),
            *final(self) == old(self).restart_failed_post(),
    {
        self.status = ServiceStatus::Failed;
    }

    /// Releases the accounted child without signalling it, for a teardown
    /// whose policy leaves the child running detached: nothing is
    /// supervised afterwards, so the status returns to `Stopped`.
    pub fn detach_child(&mut self)
        requires
            old(self).wf(),
        ensures
            final(self).wf(),
            *final(self) == old(self).detach_post(),
    {
        self.status = ServiceStatus::Stopped;
        self.has_child = false;
    }

    /// Re-arms automatic restarts after a failure by clearing the attempt
    /// counter; the service itself is not restarted.
    pub fn reset_restart_attempts(&mut self)
        requires
            old(self).wf(),
        ensures
            final(self).wf(),
            *final(self) == (MastraService { restart_attempts: 0, ..*old(self) }),
    {
        self.restart_attempts = 0;
    }

    /// Sets whether tearing the supervisor down should kill the child or
    /// leave it running detached.
    pub fn set_stop_on_drop(&mut self, should_stop: bool)
        ensures
            *final(self) == (MastraService { stop_on_drop: should_stop, ..*old(self) }),
    {
        self.stop_on_drop = should_stop;
    }

    /// Whether teardown should run the stop path for the child.
    pub fn should_stop_on_teardown(&self) -> (r: bool)
        ensures
            r == self.stop_on_drop,
    {
        self.stop_on_drop
    }

    /// The service URL built from the current port — the most recently
    /// resolved one, not necessarily the configured one.
    pub fn get_url(&self) -> (r: String)
        ensures
            r@ == MastraService::url_of(self.port),
    {
        let mut s = String::from_str("http://localhost:");
        append_dec_u64(&mut s, self.port as u64);
        s
    }

    /// Whether the service currently counts as running.
    pub fn is_running(&self) -> (r: bool)
        ensures
            r == (self.status == ServiceStatus::Running),
    {
        self.status == ServiceStatus::Running
    }

    /// The current lifecycle state.
    pub fn get_status(&self) -> (r: ServiceStatus)
        ensures
            r == self.status,
    {
        self.status
    }

    /// The current candidate port.
    pub fn get_port(&self) -> (r: u16)
        ensures
            r == self.port,
    {
        self.port
    }
}

} // verus!
