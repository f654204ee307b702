//! Laws of the lifecycle state machine, stated across its transitions.

use vstd::prelude::*;

use crate::ports::{PortResolution, MAX_PORT_INCREMENTS};
use crate::status::ServiceStatus;
use crate::supervisor::{MastraService, MonitorAction, StartGate};

verus! {

/// A start attempt on a running service with a live child is an
/// idempotent success: the answer is `AlreadyRunning`, and the state —
/// port, attempt counter, child handle and all — is unchanged.
pub proof fn lemma_start_idempotent_while_running(s: MastraService, now_ms: u64)
    requires
        s.wf(),
        s.status == ServiceStatus::Running,
        s.has_child,
    ensures
        s.gate_decision(now_ms) == StartGate::AlreadyRunning,
        s.gate_post(now_ms) == s,
{
}

/// Two start attempts within the restart cooldown never spawn twice: when
/// an attempt is allowed to proceed at `t1`, a second attempt at any `t2`
/// before the cooldown has elapsed is never let through, whether the
/// first spawn succeeded or failed. A failed first spawn makes the second
/// attempt a `CooldownActive` rejection that changes nothing; a
/// successful one makes it an `AlreadyRunning` no-op.
pub proof fn lemma_no_second_spawn_within_cooldown(
    s: MastraService,
    t1: u64,
    t2: u64,
    first_ok: bool,
)
    requires
        s.wf(),
        s.gate_decision(t1) == StartGate::Proceed,
        t1 <= t2 < t1 + s.restart_cooldown_ms,
    ensures
        ({
            let s1 = if first_ok {
                s.gate_post(t1).spawn_ok_post()
            } else {
                s.gate_post(t1).spawn_failed_post()
            };
            &&& s1.gate_decision(t2) != StartGate::Proceed
            &&& first_ok ==> s1.gate_decision(t2) == StartGate::AlreadyRunning
            &&& !first_ok ==> s1.gate_decision(t2) == StartGate::CooldownActive(
                s1.cooldown_remaining_secs(t2),
            ) && s1.gate_post(t2) == s1
        }),
{
}

/// The state after `n` consecutive failed spawns, from a state that
/// holds no child — a spawn only ever happens without one. The cooldown
/// gate of the attempts in between only re-stamps the attempt time, which
/// this chain leaves out.
pub open spec fn spawn_failures(s: MastraService, n: nat) -> MastraService
    decreases n,
{
    if n == 0 {
        s
    } else {
        spawn_failures(s, (n - 1) as nat).spawn_failed_post()
    }
}

/// Consecutive failed spawns exhaust the restart budget: once at least
/// `max_restart_attempts - restart_attempts` of them have happened, the
/// attempt counter stands at its cap and the status at `Failed`, and
/// further failures move neither. The port and the (absent) child handle
/// are untouched throughout.
pub proof fn lemma_spawn_failures_exhaust_budget(s: MastraService, n: nat)
    requires
        s.wf(),
        !s.has_child,
        n >= s.max_restart_attempts - s.restart_attempts,
    ensures
        spawn_failures(s, n).wf(),
        spawn_failures(s, n).restart_attempts == s.max_restart_attempts,
        n > 0 ==> spawn_failures(s, n).status == ServiceStatus::Failed,
        spawn_failures(s, n).port == s.port,
        spawn_failures(s, n).has_child == s.has_child,
        spawn_failures(s, n).max_restart_attempts == s.max_restart_attempts,
    decreases n,
{
    if n > 0 {
        if n - 1 >= s.max_restart_attempts - s.restart_attempts {
            lemma_spawn_failures_exhaust_budget(s, (n - 1) as nat);
        } else {
            lemma_spawn_failures_preserve(s, (n - 1) as nat);
        }
    }
}

/// Every step of the failure chain keeps the state well formed and leaves
/// the port, the child handle and the cap alone, while the attempt
/// counter never passes the cap.
pub proof fn lemma_spawn_failures_preserve(s: MastraService, n: nat)
    requires
        s.wf(),
        !s.has_child,
    ensures
        spawn_failures(s, n).wf(),
        spawn_failures(s, n).port == s.port,
        spawn_failures(s, n).has_child == s.has_child,
        spawn_failures(s, n).max_restart_attempts == s.max_restart_attempts,
        spawn_failures(s, n).restart_attempts >= s.restart_attempts,
        n > 0 ==> spawn_failures(s, n).status == ServiceStatus::Failed,
        spawn_failures(s, n).restart_attempts <= s.restart_attempts + n,
        n <= s.max_restart_attempts - s.restart_attempts ==> spawn_failures(s, n).restart_attempts
            == s.restart_attempts + n,
    decreases n,
{
    if n > 0 {
        lemma_spawn_failures_preserve(s, (n - 1) as nat);
    }
}

/// A failed service never restarts automatically: whatever a liveness
/// poll reports, the monitor exits at once and leaves the state
/// unchanged.
pub proof fn lemma_monitor_exits_after_failure(s: MastraService, child_alive: bool)
    requires
        s.wf(),
        s.status == ServiceStatus::Failed,
    ensures
        s.monitor_decision(child_alive) == MonitorAction::Exit,
        s.monitor_post(child_alive) == s,
{
}

/// Stopping a supervisor with no active child is an idempotent success:
/// the status becomes `Stopped` and nothing else moves.
pub proof fn lemma_stop_without_child(s: MastraService)
    requires
        s.wf(),
        !s.has_child,
    ensures
        s.stop_post(None) == (MastraService { status: ServiceStatus::Stopped, ..s }),
        s.stop_post(None).wf(),
{
}

/// Port resolution always ends: its step measure starts no higher than
/// the candidate budget allows and never goes negative, and every step
/// that does not terminate the machine strictly decreases it, as
/// [`PortResolution::step`] ensures.
pub proof fn lemma_resolution_measure_bounded(pr: PortResolution)
    requires
        pr.wf(),
    ensures
        0 <= pr.measure() <= (MAX_PORT_INCREMENTS + 1) * 5,
{
}

} // verus!
