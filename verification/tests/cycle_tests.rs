use supervisor::clock::Timestamp;
use supervisor::cycle::Action;
use supervisor::cycle::Event;
use supervisor::cycle::Phase;
use supervisor::cycle::phase_action;
use supervisor::cycle::spawn_failure_message;
use supervisor::cycle::step;
use supervisor::logger::log_crash;

fn fixed_clock() -> Timestamp {
    Timestamp { year: 2024, month: 1, day: 15, hour: 10, minute: 30, second: 0 }
}

/// What one simulated iteration did: the log lines it appended, whether
/// a start of the daemon was attempted, and whether the cycle reached
/// its sleep.
struct IterationOutcome {
    log: Vec<String>,
    spawn_attempted: bool,
    slept: bool,
}

/// Drives the machine through one full iteration, with the scan result
/// and the spawn outcome injected, and an in-memory log standing in for
/// the log file.
fn run_iteration(daemon_running: bool, spawn: Result<(), String>) -> IterationOutcome {
    let mut phase = Phase::Checking;
    let mut out = IterationOutcome { log: Vec::new(), spawn_attempted: false, slept: false };
    loop {
        match phase_action(&phase) {
            Some(Action::CheckDaemon) => {
                phase = step(phase, Event::Checked(daemon_running));
            }
            Some(Action::AppendLog(msg)) => {
                log_crash(&mut out.log, &fixed_clock(), &msg);
                phase = step(phase, Event::Logged);
            }
            Some(Action::StartDaemon) => {
                out.spawn_attempted = true;
                let event = match &spawn {
                    Ok(()) => Event::SpawnOk,
                    Err(e) => Event::SpawnErr(e.clone()),
                };
                phase = step(phase, event);
            }
            Some(Action::Sleep) => {
                out.slept = true;
                phase = step(phase, Event::Slept);
                assert!(matches!(phase, Phase::Checking));
                return out;
            }
            None => {
                phase = step(phase, Event::Advance);
            }
        }
    }
}

#[test]
fn absent_daemon_is_logged_before_spawn() {
    // The "not running" line is appended, and only afterwards is the
    // launch attempted; its outcome line follows in order.
    let out = run_iteration(false, Ok(()));
    assert!(out.spawn_attempted);
    assert_eq!(out.log[0], "[2024-01-15 10:30:00] Daemon not running. Restarting...");
}

#[test]
fn successful_spawn_logs_started() {
    let out = run_iteration(false, Ok(()));
    assert_eq!(out.log.len(), 2);
    assert_eq!(out.log[1], "[2024-01-15 10:30:00] Daemon started.");
    assert!(out.slept);
}

#[test]
fn failed_spawn_logs_error_and_cycle_goes_on() {
    let err = "No such file or directory (os error 2)";
    let out = run_iteration(false, Err(err.to_string()));
    assert!(out.spawn_attempted);
    assert_eq!(out.log.len(), 2);
    assert!(out.log[1].contains("Failed to start daemon:"));
    assert!(out.log[1].contains(err));
    assert_eq!(
        out.log[1],
        "[2024-01-15 10:30:00] Failed to start daemon: No such file or directory (os error 2)"
    );
    // The iteration still ends in the sleep, never in termination.
    assert!(out.slept);
}

#[test]
fn present_daemon_writes_nothing() {
    let out = run_iteration(true, Ok(()));
    assert!(out.log.is_empty());
    assert!(!out.spawn_attempted);
    assert!(out.slept);
}

#[test]
fn iterations_carry_nothing_forward() {
    // Each iteration starts over at Checking; equal inputs give equal
    // outcomes whatever ran before.
    let first = run_iteration(false, Err("boom".to_string()));
    let again = run_iteration(false, Err("boom".to_string()));
    assert_eq!(first.log, again.log);
    assert_eq!(first.spawn_attempted, again.spawn_attempted);
    let calm = run_iteration(true, Ok(()));
    assert!(calm.log.is_empty());
}

#[test]
fn spawn_failure_message_embeds_error_text() {
    let m = spawn_failure_message("permission denied");
    assert_eq!(m, "Failed to start daemon: permission denied");
}

#[test]
fn mismatched_event_leaves_phase_in_place() {
    let next = step(Phase::Running, Event::Logged);
    assert!(matches!(next, Phase::Running));
    let next = step(Phase::Checking, Event::Slept);
    assert!(matches!(next, Phase::Checking));
}

#[test]
fn transitions_follow_the_design() {
    assert!(matches!(step(Phase::Checking, Event::Checked(true)), Phase::Running));
    assert!(matches!(step(Phase::Checking, Event::Checked(false)), Phase::NotRunning));
    assert!(matches!(step(Phase::NotRunning, Event::Logged), Phase::Launching));
    assert!(matches!(step(Phase::Launching, Event::SpawnOk), Phase::Launched));
    let failed = step(Phase::Launching, Event::SpawnErr("e".to_string()));
    match &failed {
        Phase::LaunchFailed(e) => assert_eq!(e, "e"),
        other => panic!("unexpected phase: {:?}", other),
    }
    assert!(matches!(step(failed, Event::Logged), Phase::Sleeping));
    assert!(matches!(step(Phase::Launched, Event::Logged), Phase::Sleeping));
    assert!(matches!(step(Phase::Running, Event::Advance), Phase::Sleeping));
    assert!(matches!(step(Phase::Sleeping, Event::Slept), Phase::Checking));
}

#[test]
fn actions_match_phases() {
    assert!(matches!(phase_action(&Phase::Checking), Some(Action::CheckDaemon)));
    assert!(matches!(phase_action(&Phase::Launching), Some(Action::StartDaemon)));
    assert!(matches!(phase_action(&Phase::Sleeping), Some(Action::Sleep)));
    assert!(phase_action(&Phase::Running).is_none());
    match phase_action(&Phase::NotRunning) {
        Some(Action::AppendLog(m)) => assert_eq!(m, "Daemon not running. Restarting..."),
        other => panic!("unexpected action: {:?}", other),
    }
    match phase_action(&Phase::Launched) {
        Some(Action::AppendLog(m)) => assert_eq!(m, "Daemon started."),
        other => panic!("unexpected action: {:?}", other),
    }
    match phase_action(&Phase::LaunchFailed("disk full".to_string())) {
        Some(Action::AppendLog(m)) => assert_eq!(m, "Failed to start daemon: disk full"),
        other => panic!("unexpected action: {:?}", other),
    }
}

#[test]
fn fixed_config_matches_the_deployment() {
    let c = supervisor::config::Config::fixed();
    assert_eq!(c.log_path, "/media/card/crash.log");
    assert_eq!(c.daemon_path, "/media/card/rayhunter-daemon");
    assert_eq!(c.config_path, "/data/rayhunter/config.toml");
    assert_eq!(c.daemon_pattern, "rayhunter-daemon");
    assert_eq!(c.poll_interval_secs, 5);
}
