//! Port-conflict resolution.
//!
//! Resolution is a dialogue: the machine asks for one blocking operation at
//! a time — probe a port, reclaim it from whatever process holds it, or
//! wait and probe again — and the caller reports each outcome back through
//! [`PortResolution::step`]. A free candidate is used as it is; an occupied
//! one is reclaimed and re-probed up to [`MAX_PORT_RECHECKS`] times with
//! increasing waits; when the reclaimer finds nothing, fails, or the port
//! stays occupied, the next port is tried. After [`MAX_PORT_INCREMENTS`]
//! moves the machine gives up, so a resolution always ends after a bounded
//! number of steps: every step either terminates the machine or strictly
//! decreases [`PortResolution::measure`].

use vstd::prelude::*;

verus! {

/// How many times resolution may move to the next port before giving up.
pub const MAX_PORT_INCREMENTS: u16 = 10;

/// How many times an occupied port is re-probed after a reclaim.
pub const MAX_PORT_RECHECKS: u8 = 3;

/// Base settle interval after a reclaim, in milliseconds; later re-probes
/// wait a multiple of it.
pub const PORT_SETTLE_MS: u64 = 2000;

/// What reclaiming a port achieved.
#[derive(Clone, Copy, Debug, PartialEq, Eq, Structural)]
pub enum ReclaimOutcome {
    /// At least one process holding the port was signalled. The port is
    /// not thereby proven free: a re-probe is mandatory.
    Reclaimed,
    /// No process holding the port was discovered.
    NotFound,
    /// The inspection command itself failed to run.
    Error,
}

/// Where the resolution machine stands.
#[derive(Clone, Copy, Debug, PartialEq, Eq, Structural)]
pub enum ResolvePhase {
    /// Waiting for the probe of a fresh candidate port.
    AwaitProbe,
    /// Waiting for the outcome of reclaiming the current port.
    AwaitReclaim,
    /// Waiting for re-probe number `attempt` after a reclaim.
    AwaitRecheck { attempt: u8 },
    /// The current port was found free; resolution succeeded.
    Resolved,
    /// The candidate budget is spent; resolution failed.
    Exhausted,
}

/// The blocking operation the caller is asked to perform next.
#[derive(Clone, Copy, Debug, PartialEq, Eq, Structural)]
pub enum PortAction {
    /// Probe whether this port is in use; answer with a probe result.
    Probe(u16),
    /// Try to reclaim this port; answer with a reclaim result.
    Reclaim(u16),
    /// Wait the given milliseconds, then probe this port; answer with a
    /// probe result.
    WaitAndReprobe(u16, u64),
    /// Resolution succeeded: bind the service to this port.
    UsePort(u16),
    /// Resolution failed; report `PortResolutionExhausted`.
    GiveUp,
}

/// The outcome of the operation the machine asked for.
#[derive(Clone, Copy, Debug, PartialEq, Eq, Structural)]
pub enum PortEvent {
    /// Whether the probed port was in use.
    ProbeResult(bool),
    /// What reclaiming the port achieved.
    ReclaimResult(ReclaimOutcome),
}

/// The state of one port resolution.
pub struct PortResolution {
    /// The current phase.
    pub phase: ResolvePhase,
    /// The port resolution started from.
    pub first_port: u16,
    /// The current candidate port.
    pub port: u16,
    /// How many times resolution has moved to the next port.
    pub increments: u16,
}

/// The wait before re-probe number `k`, growing with `k`.
pub open spec fn recheck_wait_ms(k: u8) -> u64
    recommends
        k <= MAX_PORT_RECHECKS,
{
    ((PORT_SETTLE_MS as int) * (k as int)) as u64
}

impl PortResolution {
    /// Well-formedness: the candidate budget is respected, the current
    /// port is the starting port advanced by the moves made, and a
    /// re-probe counter stays within its range.
    pub open spec fn wf(&self) -> bool {
        &&& self.increments <= MAX_PORT_INCREMENTS
        &&& self.port == self.first_port + self.increments
        &&& match self.phase {
            ResolvePhase::AwaitRecheck { attempt } => 1 <= attempt <= MAX_PORT_RECHECKS,
            _ => true,
        }
    }

    /// Whether resolution has ended, in success or failure.
    pub open spec fn is_terminal(self) -> bool {
        self.phase == ResolvePhase::Resolved || self.phase == ResolvePhase::Exhausted
    }

    /// Whether the machine currently waits for a probe result.
    pub open spec fn expects_probe(self) -> bool {
        self.phase == ResolvePhase::AwaitProbe || (self.phase matches ResolvePhase::AwaitRecheck {
            ..
        })
    }

    /// Whether `ev` answers what the machine last asked for.
    pub open spec fn accepts(self, ev: PortEvent) -> bool {
        match ev {
            PortEvent::ProbeResult(_) => self.expects_probe(),
            PortEvent::ReclaimResult(_) => self.phase == ResolvePhase::AwaitReclaim,
        }
    }

    /// An upper bound on the steps resolution can still take: it is
    /// non-negative, and every non-terminating step strictly decreases it.
    pub open spec fn measure(self) -> int {
        match self.phase {
            ResolvePhase::AwaitProbe => (MAX_PORT_INCREMENTS - self.increments) * 5 + 5,
            ResolvePhase::AwaitReclaim => (MAX_PORT_INCREMENTS - self.increments) * 5 + 4,
            ResolvePhase::AwaitRecheck { attempt } => (MAX_PORT_INCREMENTS - self.increments) * 5
                + (4 - attempt),
            ResolvePhase::Resolved => 0,
            ResolvePhase::Exhausted => 0,
        }
    }

    /// How the machine moves to the next candidate port: one port up when
    /// the candidate budget and the port range allow it, and into
    /// `Exhausted` otherwise.
    pub open spec fn moved_on(pre: PortResolution, post: PortResolution, r: PortAction) -> bool {
        if pre.increments < MAX_PORT_INCREMENTS && pre.port < 65535 {
            &&& post == (PortResolution {
                phase: ResolvePhase::AwaitProbe,
                port: (pre.port + 1) as u16,
                increments: (pre.increments + 1) as u16,
                ..pre
            })
            &&& r == PortAction::Probe((pre.port + 1) as u16)
        } else {
            &&& post == (PortResolution { phase: ResolvePhase::Exhausted, ..pre })
            &&& r == PortAction::GiveUp
        }
    }

    /// Starts resolving from `port`. The returned action asks the caller
    /// to probe it.
    pub fn begin(port: u16) -> (r: (PortResolution, PortAction))
        ensures
            r.0.wf(),
            r.0 == (PortResolution {
                phase: ResolvePhase::AwaitProbe,
                first_port: port,
                port,
                increments: 0,
            }),
            r.1 == PortAction::Probe(port),
    {
        let pr = PortResolution {
            phase: ResolvePhase::AwaitProbe,
            first_port: port,
            port,
            increments: 0,
        };
        (pr, PortAction::Probe(port))
    }

    /// Moves the machine to the next candidate port, or into `Exhausted`
    /// when the budget or the port range is spent.
    fn move_to_next_port(&mut self) -> (r: PortAction)
        requires
            old(self).wf(),
        ensures
            final(self).wf(),
            PortResolution::moved_on(*old(self), *final(self), r),
    {
        if self.increments < MAX_PORT_INCREMENTS && self.port < 65535 {
            self.port = self.port + 1;
            self.increments = self.increments + 1;
            self.phase = ResolvePhase::AwaitProbe;
            PortAction::Probe(self.port)
        } else {
            self.phase = ResolvePhase::Exhausted;
            PortAction::GiveUp
        }
    }

    /// Feeds the outcome of the last asked operation into the machine and
    /// answers what to do next.
    ///
    /// A port probed free is used as it is. An occupied fresh candidate is
    /// reclaimed; a successful reclaim is followed by up to
    /// [`MAX_PORT_RECHECKS`] re-probes with increasing waits; a reclaim
    /// that found nothing or failed, like a port that stays occupied after
    /// the re-probes, moves resolution to the next port.
    pub fn step(&mut self, ev: PortEvent) -> (r: PortAction)
        requires
            old(self).wf(),
            old(self).accepts(ev),
        ensures
            final(self).wf(),
            final(self).first_port == old(self).first_port,
            final(self).port >= old(self).port,
            !final(self).is_terminal() ==> final(self).measure() < old(self).measure(),
            ev == PortEvent::ProbeResult(false) ==> *final(self) == (PortResolution {
                phase: ResolvePhase::Resolved,
                ..*old(self)
            }) && r == PortAction::UsePort(old(self).port),
            old(self).phase == ResolvePhase::AwaitProbe && ev == PortEvent::ProbeResult(true)
                ==> *final(self) == (PortResolution {
                phase: ResolvePhase::AwaitReclaim,
                ..*old(self)
            }) && r == PortAction::Reclaim(old(self).port),
            (forall|k: u8|
                old(self).phase == (ResolvePhase::AwaitRecheck { attempt: k }) && k
                    < MAX_PORT_RECHECKS && ev == PortEvent::ProbeResult(true) ==> *final(self) == (
                PortResolution {
                    phase: ResolvePhase::AwaitRecheck { attempt: (k + 1) as u8 },
                    ..*old(self)
                }) && r == PortAction::WaitAndReprobe(
                    old(self).port,
                    recheck_wait_ms((k + 1) as u8),
                )),
            old(self).phase == (ResolvePhase::AwaitRecheck { attempt: MAX_PORT_RECHECKS }) && ev
                == PortEvent::ProbeResult(true) ==> PortResolution::moved_on(
                *old(self),
                *final(self),
                r,
            ),
            ev == PortEvent::ReclaimResult(ReclaimOutcome::Reclaimed) ==> *final(self) == (
            PortResolution { phase: ResolvePhase::AwaitRecheck { attempt: 1 }, ..*old(self) })
                && r == PortAction::WaitAndReprobe(old(self).port, recheck_wait_ms(1)),
            ev == PortEvent::ReclaimResult(ReclaimOutcome::NotFound) || ev
                == PortEvent::ReclaimResult(ReclaimOutcome::Error) ==> PortResolution::moved_on(
                *old(self),
                *final(self),
                r,
            ),
    {
        match ev {
            PortEvent::ProbeResult(in_use) => {
                if !in_use {
                    self.phase = ResolvePhase::Resolved;
                    PortAction::UsePort(self.port)
                } else {
                    match self.phase {
                        ResolvePhase::AwaitProbe => {
                            self.phase = ResolvePhase::AwaitReclaim;
                            PortAction::Reclaim(self.port)
                        },
                        ResolvePhase::AwaitRecheck { attempt } => {
                            if attempt < MAX_PORT_RECHECKS {
                                self.phase = ResolvePhase::AwaitRecheck { attempt: attempt + 1 };
                                PortAction::WaitAndReprobe(
                                    self.port,
                                    PORT_SETTLE_MS * ((attempt + 1) as u64),
                                )
                            } else {
                                self.move_to_next_port()
                            }
                        },
                        _ => unreached(),
                    }
                }
            },
            PortEvent::ReclaimResult(outcome) => {
                match outcome {
                    ReclaimOutcome::Reclaimed => {
                        self.phase = ResolvePhase::AwaitRecheck { attempt: 1 };
                        PortAction::WaitAndReprobe(self.port, PORT_SETTLE_MS)
                    },
                    ReclaimOutcome::NotFound => self.move_to_next_port(),
                    ReclaimOutcome::Error => self.move_to_next_port(),
                }
            },
        }
    }
}

/// Reports whether any of the three bind probes found the port occupied.
///
/// A port counts as in use when binding a listener failed on the IPv4
/// loopback, the IPv6 loopback, or the IPv4 wildcard address. A failed bind
/// proves occupation on that interface; three successful binds do not prove
/// the port free for every consumer (a UDP-only occupant is invisible to
/// this probe). That is an accepted limitation of the heuristic.
pub fn port_probe_verdict(v4_in_use: bool, v6_in_use: bool, wildcard_in_use: bool) -> (r: bool)
    ensures
        r == (v4_in_use || v6_in_use || wildcard_in_use),
{
    v4_in_use || v6_in_use || wildcard_in_use
}

} // verus!
