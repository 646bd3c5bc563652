use singctl::supervisor::{
    ProbeStep, ProcessHandle, ProcessSupervisor, StopPollStep, StopStep, SupervisorError,
    PROBE_ATTEMPTS, STOP_POLL_LIMIT,
};

fn handle(pid: u32) -> ProcessHandle {
    ProcessHandle { pid, started_at: 1_000 }
}

/// Drive a supervisor through a fully successful start sequence.
fn start_successfully(sup: &mut ProcessSupervisor, pid: u32) {
    sup.request_start().expect("stopped supervisor accepts a start");
    sup.on_spawn_result(Some(handle(pid)))
        .expect("spawn reported successful");
    sup.on_settle_check(None)
        .expect("no exit within the settle window");
    let step = sup.on_probe_result(true);
    assert_eq!(step, ProbeStep::Established);
}

#[test]
fn second_start_without_stop_is_rejected() {
    let mut sup = ProcessSupervisor::new();
    start_successfully(&mut sup, 41);
    // The second request is refused and nothing is spawned: the
    // supervisor still holds the one original process.
    let second = sup.request_start();
    assert_eq!(second, Err(SupervisorError::AlreadyRunning));
    let report = sup.status(false, 2_000);
    assert!(report.running);
    assert_eq!(report.pid, Some(41));
}

#[test]
fn start_during_start_is_rejected() {
    let mut sup = ProcessSupervisor::new();
    sup.request_start().expect("first start accepted");
    // Still starting (nothing spawned yet): a concurrent start loses.
    assert_eq!(sup.request_start(), Err(SupervisorError::AlreadyRunning));
}

#[test]
fn stop_when_stopped_is_a_noop_any_number_of_times() {
    let mut sup = ProcessSupervisor::new();
    for _ in 0..5 {
        assert_eq!(sup.request_stop(), StopStep::AlreadyStopped);
        let report = sup.status(false, 0);
        assert!(!report.running);
        assert_eq!(report.pid, None);
    }
}

#[test]
fn three_failed_probes_abandon_the_start() {
    let mut sup = ProcessSupervisor::new();
    sup.request_start().expect("start accepted");
    sup.on_spawn_result(Some(handle(42))).expect("spawned");
    sup.on_settle_check(None).expect("settled");
    assert_eq!(sup.on_probe_result(false), ProbeStep::Retry);
    assert_eq!(sup.on_probe_result(false), ProbeStep::Retry);
    let last = sup.on_probe_result(false);
    assert_eq!(
        last,
        ProbeStep::Abandon(SupervisorError::ConnectivityCheckFailed)
    );
    // The abandoned process is torn down; once its exit is confirmed
    // no child lingers and the supervisor is stopped.
    sup.on_exit_confirmed();
    let report = sup.status(false, 5_000);
    assert!(!report.running);
    assert_eq!(report.pid, None);
    // And a fresh start may be attempted right away.
    assert!(sup.request_start().is_ok());
}

#[test]
fn probe_succeeding_on_last_attempt_still_establishes() {
    let mut sup = ProcessSupervisor::new();
    sup.request_start().expect("start accepted");
    sup.on_spawn_result(Some(handle(43))).expect("spawned");
    sup.on_settle_check(None).expect("settled");
    for _ in 0..(PROBE_ATTEMPTS - 1) {
        assert_eq!(sup.on_probe_result(false), ProbeStep::Retry);
    }
    assert_eq!(sup.on_probe_result(true), ProbeStep::Established);
    assert!(sup.status(false, 2_000).running);
}

#[test]
fn immediate_exit_fails_the_start_with_the_code() {
    let mut sup = ProcessSupervisor::new();
    sup.request_start().expect("start accepted");
    sup.on_spawn_result(Some(handle(44))).expect("spawned");
    let r = sup.on_settle_check(Some(127));
    assert_eq!(r, Err(SupervisorError::ImmediateExit(127)));
    let report = sup.status(false, 2_000);
    assert!(!report.running);
    assert_eq!(report.pid, None);
}

#[test]
fn failed_spawn_returns_to_stopped() {
    let mut sup = ProcessSupervisor::new();
    sup.request_start().expect("start accepted");
    let r = sup.on_spawn_result(None);
    assert_eq!(r, Err(SupervisorError::SpawnFailed));
    assert!(!sup.status(false, 0).running);
    assert!(sup.request_start().is_ok());
}

#[test]
fn graceful_stop_sequence_reaches_stopped() {
    let mut sup = ProcessSupervisor::new();
    start_successfully(&mut sup, 45);
    let step = sup.request_stop();
    assert_eq!(step, StopStep::SignalTerm(45));
    // Two polls still alive, then the process exits.
    assert_eq!(sup.on_stop_poll(false), StopPollStep::PollAgain);
    assert_eq!(sup.on_stop_poll(false), StopPollStep::PollAgain);
    assert_eq!(sup.on_stop_poll(true), StopPollStep::Exited);
    assert!(!sup.status(false, 9_000).running);
}

#[test]
fn exhausted_poll_window_escalates_to_force_kill() {
    let mut sup = ProcessSupervisor::new();
    start_successfully(&mut sup, 46);
    assert_eq!(sup.request_stop(), StopStep::SignalTerm(46));
    for _ in 0..STOP_POLL_LIMIT {
        assert_eq!(sup.on_stop_poll(false), StopPollStep::PollAgain);
    }
    // The bounded wait window is exhausted: the kill is forced.
    assert_eq!(sup.on_stop_poll(false), StopPollStep::ForceKill(46));
    sup.on_exit_confirmed();
    let report = sup.status(false, 9_000);
    assert!(!report.running);
    assert_eq!(report.pid, None);
}

#[test]
fn restart_is_stop_then_start() {
    let mut sup = ProcessSupervisor::new();
    start_successfully(&mut sup, 47);
    assert_eq!(sup.request_stop(), StopStep::SignalTerm(47));
    assert_eq!(sup.on_stop_poll(true), StopPollStep::Exited);
    start_successfully(&mut sup, 48);
    let report = sup.status(false, 2_000);
    assert!(report.running);
    assert_eq!(report.pid, Some(48));
}

#[test]
fn status_reaps_an_exited_process() {
    let mut sup = ProcessSupervisor::new();
    start_successfully(&mut sup, 49);
    // The process died behind the supervisor's back: status heals the
    // state to stopped.
    let report = sup.status(true, 2_000);
    assert!(!report.running);
    assert_eq!(report.pid, None);
    assert_eq!(sup.request_stop(), StopStep::AlreadyStopped);
}

#[test]
fn status_reports_uptime_from_the_start_timestamp() {
    let mut sup = ProcessSupervisor::new();
    start_successfully(&mut sup, 50);
    let report = sup.status(false, 4_500);
    assert!(report.running);
    assert_eq!(report.uptime_ms, 3_500);
}

#[test]
fn require_running_guards_control_api_calls() {
    let mut sup = ProcessSupervisor::new();
    assert_eq!(sup.require_running(), Err(SupervisorError::NotRunning));
    start_successfully(&mut sup, 51);
    assert_eq!(sup.require_running(), Ok(51));
}

#[test]
fn stop_during_start_before_spawn_cancels_the_start() {
    let mut sup = ProcessSupervisor::new();
    sup.request_start().expect("start accepted");
    assert_eq!(sup.request_stop(), StopStep::AlreadyStopped);
    assert_eq!(sup.status(false, 0).pid, None);
    assert!(matches!(sup.request_start(), Ok(())));
}
