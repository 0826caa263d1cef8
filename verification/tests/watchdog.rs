use xorctl::probe::{check, send_udp_command, ScriptedTransport, Transport, BUFFER_SIZE};
use xorctl::process::{restart_process, ProcessControl, ProcessRecord, SimulatedProcessTable};
use xorctl::report::{decimal_string, status_line};
use xorctl::scheduler::{
    check_and_reconnect, CycleReport, Scheduler, SchedulerState, PROCESS_NAME, TICK_INTERVAL_SECS,
};
use xorctl::status::{classify_response, HealthStatus};

fn record(pid: u32, name: &str) -> ProcessRecord {
    ProcessRecord { pid, name: name.to_string() }
}

fn scripted(outcomes: Vec<Result<Vec<u8>, String>>) -> ScriptedTransport {
    ScriptedTransport::new(outcomes)
}

#[test]
fn classify_healthy_text() {
    assert_eq!(classify_response("ok connected"), HealthStatus::Healthy);
}

#[test]
fn classify_disconnected_text() {
    assert_eq!(classify_response("status: disc"), HealthStatus::Disconnected);
}

#[test]
fn classify_marker_alone() {
    assert_eq!(classify_response("disc"), HealthStatus::Disconnected);
}

#[test]
fn classify_marker_embedded() {
    assert_eq!(classify_response("xxdisconnectedxx"), HealthStatus::Disconnected);
}

#[test]
fn classify_marker_incomplete() {
    assert_eq!(classify_response("dis"), HealthStatus::Healthy);
    assert_eq!(classify_response("dicsonnected"), HealthStatus::Healthy);
}

#[test]
fn classify_is_case_sensitive() {
    assert_eq!(classify_response("DISC"), HealthStatus::Healthy);
}

#[test]
fn classify_empty_text() {
    assert_eq!(classify_response(""), HealthStatus::Healthy);
}

#[test]
fn classify_marker_at_end() {
    assert_eq!(classify_response("state is disc"), HealthStatus::Disconnected);
}

#[test]
fn probe_healthy_response() {
    let mut transport = scripted(vec![Ok(b"ok connected".to_vec())]);
    assert_eq!(check(&mut transport), HealthStatus::Healthy);
}

#[test]
fn probe_disconnected_response() {
    let mut transport = scripted(vec![Ok(b"status: disc".to_vec())]);
    assert_eq!(check(&mut transport), HealthStatus::Disconnected);
}

#[test]
fn probe_timeout_is_probe_failed() {
    let mut transport = scripted(vec![Err("timeout".to_string())]);
    assert_eq!(check(&mut transport), HealthStatus::ProbeFailed("timeout".to_string()));
}

#[test]
fn probe_exhausted_script_is_probe_failed() {
    let mut transport = scripted(vec![]);
    match check(&mut transport) {
        HealthStatus::ProbeFailed(_) => {}
        other => panic!("expected a probe failure, got {:?}", other),
    }
}

#[test]
fn send_udp_command_decodes_response() {
    let mut transport = scripted(vec![Ok(b"all fine".to_vec())]);
    let text = send_udp_command(&mut transport, "status").unwrap();
    assert_eq!(text, "all fine");
}

#[test]
fn send_udp_command_decodes_malformed_bytes_lossily() {
    let mut transport = scripted(vec![Ok(vec![0xFF, b'd', b'i', b's', b'c'])]);
    let text = send_udp_command(&mut transport, "status").unwrap();
    assert_eq!(text, "\u{FFFD}disc");
}

#[test]
fn probe_decodes_malformed_bytes_and_classifies() {
    let mut transport = scripted(vec![Ok(vec![0xFF, b'd', b'i', b's', b'c'])]);
    assert_eq!(check(&mut transport), HealthStatus::Disconnected);
}

#[test]
fn probe_truncates_response_to_buffer() {
    // The marker starts inside the buffer but ends beyond it: after
    // truncation to BUFFER_SIZE bytes only "dis" is left.
    let mut bytes = vec![b'x'; BUFFER_SIZE - 3];
    bytes.extend_from_slice(b"disc");
    assert_eq!(bytes.len(), BUFFER_SIZE + 1);
    let mut transport = scripted(vec![Ok(bytes)]);
    assert_eq!(check(&mut transport), HealthStatus::Healthy);
}

#[test]
fn probe_keeps_marker_inside_buffer() {
    let mut bytes = vec![b'x'; BUFFER_SIZE - 4];
    bytes.extend_from_slice(b"disc");
    bytes.extend_from_slice(&[b'y'; 100]);
    let mut transport = scripted(vec![Ok(bytes)]);
    assert_eq!(check(&mut transport), HealthStatus::Disconnected);
}

#[test]
fn restart_with_zero_matches() {
    let mut control = SimulatedProcessTable::new(vec![record(4, "other")]);
    let outcome = restart_process(&mut control, "X");
    assert_eq!(outcome.matched_count, 0);
    assert_eq!(outcome.killed_count, 0);
    assert!(control.kill_requests().is_empty());
}

#[test]
fn restart_with_one_match() {
    let mut control =
        SimulatedProcessTable::new(vec![record(4, "other"), record(7, "X"), record(9, "more")]);
    let outcome = restart_process(&mut control, "X");
    assert_eq!(outcome.matched_count, 1);
    assert_eq!(outcome.killed_count, 1);
    assert_eq!(*control.kill_requests(), vec![7]);
}

#[test]
fn restart_with_three_matches() {
    let mut control = SimulatedProcessTable::new(vec![
        record(1, "X"),
        record(2, "other"),
        record(3, "X"),
        record(4, "X"),
    ]);
    let outcome = restart_process(&mut control, "X");
    assert_eq!(outcome.matched_count, 3);
    assert_eq!(outcome.killed_count, 3);
    assert_eq!(*control.kill_requests(), vec![1, 3, 4]);
}

#[test]
fn restart_continues_past_failed_termination() {
    let mut control = SimulatedProcessTable::new(vec![
        record(1, "X"),
        record(2, "X"),
        record(3, "X"),
    ]);
    control.fail_termination_of(2);
    let outcome = restart_process(&mut control, "X");
    // The failed delivery is reported in the counts and does not abort
    // the remaining matches: all three requests are issued.
    assert_eq!(outcome.matched_count, 3);
    assert_eq!(outcome.killed_count, 2);
    assert_eq!(*control.kill_requests(), vec![1, 2, 3]);
}

#[test]
fn restart_matches_by_exact_name_only() {
    let mut control = SimulatedProcessTable::new(vec![
        record(1, "X1"),
        record(2, "aX"),
        record(3, " X"),
        record(4, "x"),
    ]);
    let outcome = restart_process(&mut control, "X");
    assert_eq!(outcome.matched_count, 0);
    assert!(control.kill_requests().is_empty());
}

#[test]
fn cycle_healthy_triggers_no_restart() {
    let mut transport = scripted(vec![Ok(b"ok connected".to_vec())]);
    let mut control = SimulatedProcessTable::new(vec![record(11, PROCESS_NAME)]);
    let report = check_and_reconnect(&mut transport, &mut control, PROCESS_NAME);
    assert_eq!(report.status, HealthStatus::Healthy);
    assert!(report.restarted.is_none());
    assert!(control.kill_requests().is_empty());
}

#[test]
fn cycle_disconnected_triggers_one_restart() {
    let mut transport = scripted(vec![Ok(b"status: disc".to_vec())]);
    let mut control =
        SimulatedProcessTable::new(vec![record(11, PROCESS_NAME), record(12, "other")]);
    let report = check_and_reconnect(&mut transport, &mut control, PROCESS_NAME);
    assert_eq!(report.status, HealthStatus::Disconnected);
    let outcome = report.restarted.expect("a disconnected cycle makes a restart attempt");
    assert_eq!(outcome.matched_count, 1);
    assert_eq!(outcome.killed_count, 1);
    assert_eq!(*control.kill_requests(), vec![11]);
}

#[test]
fn cycle_probe_failure_triggers_no_restart() {
    let mut transport = scripted(vec![Err("timeout".to_string())]);
    let mut control = SimulatedProcessTable::new(vec![record(11, PROCESS_NAME)]);
    let report = check_and_reconnect(&mut transport, &mut control, PROCESS_NAME);
    assert_eq!(report.status, HealthStatus::ProbeFailed("timeout".to_string()));
    assert!(report.restarted.is_none());
    assert!(control.kill_requests().is_empty());
}

#[test]
fn scheduler_lifecycle() {
    let mut scheduler = Scheduler::new(TICK_INTERVAL_SECS);
    assert_eq!(scheduler.state(), SchedulerState::Idle);
    assert_eq!(scheduler.cadence().interval_secs, 30);
    scheduler.start();
    assert_eq!(scheduler.state(), SchedulerState::Running);
    scheduler.request_cancel();
    assert_eq!(scheduler.state(), SchedulerState::Stopping);
    scheduler.cycle_finished();
    assert_eq!(scheduler.state(), SchedulerState::Terminated);
}

#[test]
fn scheduler_cancel_while_idle_terminates() {
    let mut scheduler = Scheduler::new(TICK_INTERVAL_SECS);
    scheduler.request_cancel();
    assert_eq!(scheduler.state(), SchedulerState::Terminated);
}

#[test]
fn tick_before_start_is_skipped() {
    let mut scheduler = Scheduler::new(TICK_INTERVAL_SECS);
    let mut transport = scripted(vec![Ok(b"ok".to_vec())]);
    let mut control = SimulatedProcessTable::new(vec![]);
    let report = scheduler.on_tick(&mut transport, &mut control, PROCESS_NAME);
    assert!(report.is_none());
    assert!(control.kill_requests().is_empty());
}

#[test]
fn tick_while_running_runs_one_cycle() {
    let mut scheduler = Scheduler::new(TICK_INTERVAL_SECS);
    scheduler.start();
    let mut transport = scripted(vec![Ok(b"status: disc".to_vec())]);
    let mut control = SimulatedProcessTable::new(vec![record(21, PROCESS_NAME)]);
    let report = scheduler.on_tick(&mut transport, &mut control, PROCESS_NAME).unwrap();
    assert_eq!(report.status, HealthStatus::Disconnected);
    assert_eq!(*control.kill_requests(), vec![21]);
    assert_eq!(scheduler.state(), SchedulerState::Running);
}

#[test]
fn scheduler_continues_after_probe_failure() {
    let mut scheduler = Scheduler::new(TICK_INTERVAL_SECS);
    scheduler.start();
    let mut transport =
        scripted(vec![Err("timeout".to_string()), Ok(b"ok connected".to_vec())]);
    let mut control = SimulatedProcessTable::new(vec![record(21, PROCESS_NAME)]);

    let first = scheduler.on_tick(&mut transport, &mut control, PROCESS_NAME).unwrap();
    assert_eq!(first.status, HealthStatus::ProbeFailed("timeout".to_string()));
    assert!(first.restarted.is_none());
    assert_eq!(scheduler.state(), SchedulerState::Running);

    let second = scheduler.on_tick(&mut transport, &mut control, PROCESS_NAME).unwrap();
    assert_eq!(second.status, HealthStatus::Healthy);
    assert!(control.kill_requests().is_empty());
}

#[test]
fn cancel_mid_cycle_finishes_cycle_and_stops_ticks() {
    let mut scheduler = Scheduler::new(TICK_INTERVAL_SECS);
    scheduler.start();
    let mut transport = scripted(vec![Ok(b"ok connected".to_vec())]);
    let mut control = SimulatedProcessTable::new(vec![]);

    // The cancellation signal arrives while a cycle is in flight: the
    // cycle runs to completion, then the cancellation is observed.
    let report = scheduler.on_tick(&mut transport, &mut control, PROCESS_NAME);
    scheduler.request_cancel();
    assert!(report.is_some());
    assert_eq!(scheduler.state(), SchedulerState::Stopping);

    // No further tick fires a cycle.
    let skipped = scheduler.on_tick(&mut transport, &mut control, PROCESS_NAME);
    assert!(skipped.is_none());

    scheduler.cycle_finished();
    assert_eq!(scheduler.state(), SchedulerState::Terminated);
}

#[test]
fn decimal_rendering() {
    assert_eq!(decimal_string(0), "0");
    assert_eq!(decimal_string(7), "7");
    assert_eq!(decimal_string(10), "10");
    assert_eq!(decimal_string(30042), "30042");
}

#[test]
fn status_line_probe_ok() {
    let report = CycleReport { status: HealthStatus::Healthy, restarted: None };
    assert_eq!(status_line(&report), "probe ok");
}

#[test]
fn status_line_probe_failed() {
    let report =
        CycleReport { status: HealthStatus::ProbeFailed("timeout".to_string()), restarted: None };
    assert_eq!(status_line(&report), "probe failed: timeout");
}

#[test]
fn status_line_restarted_counts() {
    let mut transport = scripted(vec![Ok(b"disc".to_vec())]);
    let mut control = SimulatedProcessTable::new(vec![
        record(1, PROCESS_NAME),
        record(2, PROCESS_NAME),
        record(3, PROCESS_NAME),
    ]);
    let report = check_and_reconnect(&mut transport, &mut control, PROCESS_NAME);
    assert_eq!(status_line(&report), "restarted 3 of 3 matching processes");
}

#[test]
fn transport_records_commands_sent() {
    let mut transport = scripted(vec![Ok(b"a".to_vec()), Ok(b"b".to_vec())]);
    let first = transport.exchange("status").unwrap();
    let second = transport.exchange("status").unwrap();
    assert_eq!(first, b"a".to_vec());
    assert_eq!(second, b"b".to_vec());
}
