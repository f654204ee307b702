use mastra_supervisor::ports::{
    PortAction, PortEvent, PortResolution, ReclaimOutcome,
};
use mastra_supervisor::supervisor::MastraService;

#[test]
fn free_port_is_used_as_it_is() {
    let (mut pr, act) = PortResolution::begin(8000);
    assert_eq!(act, PortAction::Probe(8000));
    let act = pr.step(PortEvent::ProbeResult(false));
    assert_eq!(act, PortAction::UsePort(8000));
}

#[test]
fn failed_reclaim_moves_to_the_next_port() {
    // Configured port 8000 is occupied and the reclaim finds nothing:
    // resolution falls back to 8001, and the supervisor's URL follows.
    let mut service = MastraService::new(8000, false);
    let (mut pr, act) = PortResolution::begin(service.get_port());
    assert_eq!(act, PortAction::Probe(8000));

    let act = pr.step(PortEvent::ProbeResult(true));
    assert_eq!(act, PortAction::Reclaim(8000));

    let act = pr.step(PortEvent::ReclaimResult(ReclaimOutcome::NotFound));
    assert_eq!(act, PortAction::Probe(8001));
    service.adopt_port(8001);

    let act = pr.step(PortEvent::ProbeResult(false));
    assert_eq!(act, PortAction::UsePort(8001));
    assert_eq!(service.get_url(), "http://localhost:8001");
}

#[test]
fn reclaimed_port_is_rechecked_with_growing_waits() {
    let (mut pr, _) = PortResolution::begin(8000);
    let act = pr.step(PortEvent::ProbeResult(true));
    assert_eq!(act, PortAction::Reclaim(8000));

    let act = pr.step(PortEvent::ReclaimResult(ReclaimOutcome::Reclaimed));
    assert_eq!(act, PortAction::WaitAndReprobe(8000, 2000));

    let act = pr.step(PortEvent::ProbeResult(true));
    assert_eq!(act, PortAction::WaitAndReprobe(8000, 4000));

    let act = pr.step(PortEvent::ProbeResult(true));
    assert_eq!(act, PortAction::WaitAndReprobe(8000, 6000));

    // Still occupied after the third recheck: the next port is tried.
    let act = pr.step(PortEvent::ProbeResult(true));
    assert_eq!(act, PortAction::Probe(8001));

    let act = pr.step(PortEvent::ProbeResult(false));
    assert_eq!(act, PortAction::UsePort(8001));
}

#[test]
fn recheck_that_finds_the_port_free_resolves() {
    let (mut pr, _) = PortResolution::begin(8000);
    assert_eq!(
        pr.step(PortEvent::ProbeResult(true)),
        PortAction::Reclaim(8000)
    );
    assert_eq!(
        pr.step(PortEvent::ReclaimResult(ReclaimOutcome::Reclaimed)),
        PortAction::WaitAndReprobe(8000, 2000)
    );
    assert_eq!(
        pr.step(PortEvent::ProbeResult(false)),
        PortAction::UsePort(8000)
    );
}

#[test]
fn candidate_budget_runs_out() {
    let (mut pr, mut act) = PortResolution::begin(8000);
    // Every candidate is occupied and never reclaimable: after the
    // candidate budget is spent, resolution gives up.
    for i in 0..10u16 {
        assert_eq!(act, PortAction::Probe(8000 + i));
        assert_eq!(
            pr.step(PortEvent::ProbeResult(true)),
            PortAction::Reclaim(8000 + i)
        );
        act = pr.step(PortEvent::ReclaimResult(ReclaimOutcome::Error));
    }
    assert_eq!(act, PortAction::Probe(8010));
    assert_eq!(
        pr.step(PortEvent::ProbeResult(true)),
        PortAction::Reclaim(8010)
    );
    assert_eq!(
        pr.step(PortEvent::ReclaimResult(ReclaimOutcome::NotFound)),
        PortAction::GiveUp
    );
}

#[test]
fn port_range_end_gives_up() {
    let (mut pr, act) = PortResolution::begin(65535);
    assert_eq!(act, PortAction::Probe(65535));
    assert_eq!(
        pr.step(PortEvent::ProbeResult(true)),
        PortAction::Reclaim(65535)
    );
    assert_eq!(
        pr.step(PortEvent::ReclaimResult(ReclaimOutcome::NotFound)),
        PortAction::GiveUp
    );
}
