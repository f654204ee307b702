use mastra_supervisor::status::{ServiceError, ServiceStatus};
use mastra_supervisor::supervisor::{MastraService, MonitorAction, StartGate};

#[test]
fn test_port_update() {
    let mut service = MastraService::new(8000, false);

    assert_eq!(service.get_port(), 8000);

    service.adopt_port(8001);
    assert_eq!(service.get_port(), 8001);

    assert_eq!(service.get_url(), "http://localhost:8001");
}

#[test]
fn fresh_supervisor_is_stopped() {
    let service = MastraService::new(4111, true);
    assert_eq!(service.get_status(), ServiceStatus::Stopped);
    assert!(!service.is_running());
    assert_eq!(service.get_port(), 4111);
    assert!(service.is_production);
    assert_eq!(service.restart_attempts, 0);
    assert!(service.should_stop_on_teardown());
    assert_eq!(service.get_url(), "http://localhost:4111");
}

#[test]
fn start_is_idempotent_while_running() {
    let mut service = MastraService::new(8000, false);
    assert_eq!(service.start_gate(10_000), StartGate::Proceed);
    assert!(service.apply_spawn_result(true).is_ok());
    assert_eq!(service.get_status(), ServiceStatus::Running);
    assert!(service.has_child);

    let port = service.get_port();
    let attempts = service.restart_attempts;
    assert_eq!(service.start_gate(10_001), StartGate::AlreadyRunning);
    assert_eq!(service.get_port(), port);
    assert_eq!(service.restart_attempts, attempts);
    assert!(service.has_child);
    assert_eq!(service.get_status(), ServiceStatus::Running);
}

#[test]
fn second_start_within_cooldown_is_rejected() {
    let mut service = MastraService::new(8000, false);
    assert_eq!(service.start_gate(10_000), StartGate::Proceed);
    assert_eq!(
        service.apply_spawn_result(false),
        Err(ServiceError::SpawnFailure)
    );
    assert!(!service.has_child);

    // 2000 ms into the 5000 ms cooldown: 3 whole seconds remain.
    assert_eq!(service.start_gate(12_000), StartGate::CooldownActive(3));
    assert!(!service.has_child);
    assert_eq!(service.get_status(), ServiceStatus::Failed);

    // Once the cooldown has elapsed, a start may proceed again.
    assert_eq!(service.start_gate(15_000), StartGate::Proceed);
}

#[test]
fn cooldown_error_message_names_remaining_seconds() {
    let e = ServiceError::CooldownActive(3);
    assert_eq!(
        e.message(),
        "service restart attempted too soon; wait 3 seconds before retrying"
    );
}

#[test]
fn spawn_failures_exhaust_restart_budget() {
    let mut service = MastraService::new(8000, false);
    for i in 0..5u64 {
        let t = 10_000 * (i + 1);
        assert_eq!(service.start_gate(t), StartGate::Proceed);
        assert_eq!(
            service.apply_spawn_result(false),
            Err(ServiceError::SpawnFailure)
        );
        assert_eq!(service.restart_attempts, (i + 1) as u32);
    }
    assert_eq!(service.restart_attempts, 5);
    assert_eq!(service.get_status(), ServiceStatus::Failed);

    // The counter saturates at the cap.
    assert_eq!(service.start_gate(100_000), StartGate::Proceed);
    assert_eq!(
        service.apply_spawn_result(false),
        Err(ServiceError::SpawnFailure)
    );
    assert_eq!(service.restart_attempts, 5);

    // The monitor of a failed service exits without touching the state.
    assert_eq!(service.monitor_poll(false), MonitorAction::Exit);
    assert_eq!(service.get_status(), ServiceStatus::Failed);
    assert_eq!(service.restart_attempts, 5);
}

#[test]
fn reset_restart_attempts_rearms_the_budget() {
    let mut service = MastraService::new(8000, false);
    assert_eq!(service.start_gate(10_000), StartGate::Proceed);
    assert!(service.apply_spawn_result(false).is_err());
    assert_eq!(service.restart_attempts, 1);

    service.reset_restart_attempts();
    assert_eq!(service.restart_attempts, 0);
    // Re-arming does not itself restart the service.
    assert_eq!(service.get_status(), ServiceStatus::Failed);
}

#[test]
fn stop_without_child_is_idempotent_success() {
    let mut service = MastraService::new(8000, false);
    assert_eq!(service.stop(None), Ok(()));
    assert_eq!(service.get_status(), ServiceStatus::Stopped);

    // And again, from a failed state.
    assert_eq!(service.start_gate(10_000), StartGate::Proceed);
    assert!(service.apply_spawn_result(false).is_err());
    assert_eq!(service.stop(None), Ok(()));
    assert_eq!(service.get_status(), ServiceStatus::Stopped);
}

#[test]
fn stop_kills_the_child_and_reports_a_failed_kill() {
    let mut service = MastraService::new(8000, false);
    assert_eq!(service.start_gate(10_000), StartGate::Proceed);
    assert!(service.apply_spawn_result(true).is_ok());

    assert_eq!(service.stop(Some(true)), Ok(()));
    assert_eq!(service.get_status(), ServiceStatus::Stopped);
    assert!(!service.has_child);

    // A kill that fails changes nothing: the handle stays accounted for
    // and the status stands, so the stop can be retried.
    let mut service = MastraService::new(8000, false);
    assert_eq!(service.start_gate(10_000), StartGate::Proceed);
    assert!(service.apply_spawn_result(true).is_ok());
    assert_eq!(
        service.stop(Some(false)),
        Err(ServiceError::TerminationFailure)
    );
    assert_eq!(service.get_status(), ServiceStatus::Running);
    assert!(service.has_child);

    assert_eq!(service.stop(Some(true)), Ok(()));
    assert_eq!(service.get_status(), ServiceStatus::Stopped);
    assert!(!service.has_child);
}

#[test]
fn detach_releases_the_child_without_a_kill() {
    let mut service = MastraService::new(8000, false);
    assert_eq!(service.start_gate(10_000), StartGate::Proceed);
    assert!(service.apply_spawn_result(true).is_ok());
    let port = service.get_port();

    service.detach_child();
    assert_eq!(service.get_status(), ServiceStatus::Stopped);
    assert!(!service.has_child);
    assert_eq!(service.get_port(), port);
}

#[test]
fn set_stop_on_drop_controls_teardown() {
    let mut service = MastraService::new(8000, false);
    assert!(service.should_stop_on_teardown());
    service.set_stop_on_drop(false);
    assert!(!service.should_stop_on_teardown());
    service.set_stop_on_drop(true);
    assert!(service.should_stop_on_teardown());
}

#[test]
fn crash_is_restarted_and_a_successful_restart_resets_the_budget() {
    // End to end on the model: start on a free port 9000, watch the child
    // die, restart it, and see the attempt counter rise and then reset.
    let mut service = MastraService::new(9000, false);
    assert_eq!(service.start_gate(10_000), StartGate::Proceed);
    assert!(service.apply_spawn_result(true).is_ok());
    assert_eq!(service.get_status(), ServiceStatus::Running);
    assert_eq!(service.get_url(), "http://localhost:9000");

    // While the child lives, the monitor keeps watching.
    assert_eq!(service.monitor_poll(true), MonitorAction::KeepWatching);
    assert_eq!(service.get_status(), ServiceStatus::Running);

    // The child dies: one restart attempt is counted and a new start is
    // asked for.
    assert_eq!(service.monitor_poll(false), MonitorAction::Restart);
    assert_eq!(service.get_status(), ServiceStatus::Stopped);
    assert_eq!(service.restart_attempts, 1);
    assert!(!service.has_child);

    // The restart succeeds once the cooldown has elapsed; the counter
    // resets.
    assert_eq!(service.start_gate(20_000), StartGate::Proceed);
    assert!(service.apply_spawn_result(true).is_ok());
    assert_eq!(service.get_status(), ServiceStatus::Running);
    assert_eq!(service.restart_attempts, 0);
}

#[test]
fn monitor_restart_failure_marks_the_service_failed() {
    let mut service = MastraService::new(8000, false);
    assert_eq!(service.start_gate(10_000), StartGate::Proceed);
    assert!(service.apply_spawn_result(true).is_ok());
    assert_eq!(service.monitor_poll(false), MonitorAction::Restart);

    // The follow-up start hits the cooldown; the monitor gives up.
    assert_eq!(service.start_gate(11_000), StartGate::CooldownActive(4));
    service.monitor_restart_failed();
    assert_eq!(service.get_status(), ServiceStatus::Failed);
    assert_eq!(service.monitor_poll(false), MonitorAction::Exit);
}
