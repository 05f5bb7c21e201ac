//! The supervision cycle as a state machine.  Each phase asks the host
//! for one action (scan the process table, append a log line, start
//! the daemon, or sleep); the host performs it and feeds the outcome
//! back as an event, which `step` turns into the next phase.  No other
//! state crosses an iteration: every completed cycle ends back at
//! `Checking`.

use vstd::prelude::*;

verus! {

/// Where the supervision cycle stands.
#[derive(Debug)]
pub enum Phase {
    /// About to scan the process table for the daemon.
    Checking,
    /// The scan found the daemon alive.
    Running,
    /// The scan found the daemon absent; the event is to be logged.
    NotRunning,
    /// About to start the daemon.
    Launching,
    /// The start succeeded; the event is to be logged.
    Launched,
    /// The start failed, with the reported error text; the failure is
    /// to be logged.
    LaunchFailed(String),
    /// The iteration is over; about to sleep out the poll interval.
    Sleeping,
}

/// What the host reports back after performing a phase's action.
#[derive(Debug)]
pub enum Event {
    /// The scan finished; true when the daemon was found alive.
    Checked(bool),
    /// The log line was handed to the log (a failed file write is
    /// swallowed there and still reported as this event).
    Logged,
    /// The daemon was started.
    SpawnOk,
    /// Starting the daemon failed, with the reported error text.
    SpawnErr(String),
    /// The poll interval elapsed.
    Slept,
    /// Nothing to do in this phase; move on.
    Advance,
}

/// What the host is asked to do next.
#[derive(Debug)]
pub enum Action {
    /// Scan the process table for the daemon.
    CheckDaemon,
    /// Append this message to the crash log, timestamped.
    AppendLog(String),
    /// Start the daemon, detached.
    StartDaemon,
    /// Sleep out the poll interval.
    Sleep,
}

/// The transition relation of the cycle.  An event that does not
/// answer the given phase leaves the phase unchanged.
pub open spec fn spec_step(phase: Phase, event: Event) -> Phase {
    match (phase, event) {
        (Phase::Checking, Event::Checked(true)) => Phase::Running,
        (Phase::Checking, Event::Checked(false)) => Phase::NotRunning,
        (Phase::Running, Event::Advance) => Phase::Sleeping,
        (Phase::NotRunning, Event::Logged) => Phase::Launching,
        (Phase::Launching, Event::SpawnOk) => Phase::Launched,
        (Phase::Launching, Event::SpawnErr(e)) => Phase::LaunchFailed(e),
        (Phase::Launched, Event::Logged) => Phase::Sleeping,
        (Phase::LaunchFailed(_), Event::Logged) => Phase::Sleeping,
        (Phase::Sleeping, Event::Slept) => Phase::Checking,
        (p, _) => p,
    }
}

/// Advances the cycle by one event.
pub fn step(phase: Phase, event: Event) -> (next: Phase)
    ensures
        next == spec_step(phase, event),
{
    match (phase, event) {
        (Phase::Checking, Event::Checked(true)) => Phase::Running,
        (Phase::Checking, Event::Checked(false)) => Phase::NotRunning,
        (Phase::Running, Event::Advance) => Phase::Sleeping,
        (Phase::NotRunning, Event::Logged) => Phase::Launching,
        (Phase::Launching, Event::SpawnOk) => Phase::Launched,
        (Phase::Launching, Event::SpawnErr(e)) => Phase::LaunchFailed(e),
        (Phase::Launched, Event::Logged) => Phase::Sleeping,
        (Phase::LaunchFailed(_), Event::Logged) => Phase::Sleeping,
        (Phase::Sleeping, Event::Slept) => Phase::Checking,
        (p, _) => p,
    }
}

/// The message logged when the scan finds the daemon absent.
pub open spec fn not_running_text() -> Seq<char> {
    "Daemon not running. Restarting..."@
}

/// The message logged when the daemon was started.
pub open spec fn started_text() -> Seq<char> {
    "Daemon started."@
}

/// The prefix of the message logged when starting the daemon failed;
/// the reported error text follows it.
pub open spec fn failure_prefix_text() -> Seq<char> {
    "Failed to start daemon: "@
}

/// The failure message for the reported error text `err`.
pub fn spawn_failure_message(err: &str) -> (m: String)
    ensures
        m@ == failure_prefix_text() + err@,
{
    let mut m = String::from_str("Failed to start daemon: ");
    m.append(err);
    m
}

/// The action the host is to perform in `phase`, if any.  `Running`
/// asks for nothing: a live daemon leaves no trace in the log, and the
/// cycle moves straight on towards sleeping.
pub fn phase_action(phase: &Phase) -> (a: Option<Action>)
    ensures
        (match *phase {
            Phase::Checking => a == Some(Action::CheckDaemon),
            Phase::Running => a is None,
            Phase::NotRunning => a matches Some(Action::AppendLog(m)) && m@ == not_running_text(),
            Phase::Launching => a == Some(Action::StartDaemon),
            Phase::Launched => a matches Some(Action::AppendLog(m)) && m@ == started_text(),
            Phase::LaunchFailed(e) => a matches Some(Action::AppendLog(m)) && m@
                == failure_prefix_text() + e@,
            Phase::Sleeping => a == Some(Action::Sleep),
        }),
{
    match phase {
        Phase::Checking => Some(Action::CheckDaemon),
        Phase::Running => None,
        Phase::NotRunning => Some(
            Action::AppendLog(String::from_str("Daemon not running. Restarting...")),
        ),
        Phase::Launching => Some(Action::StartDaemon),
        Phase::Launched => Some(Action::AppendLog(String::from_str("Daemon started."))),
        Phase::LaunchFailed(e) => Some(Action::AppendLog(spawn_failure_message(e.as_str()))),
        Phase::Sleeping => Some(Action::Sleep),
    }
}

/// The phase reached from `phase` after the whole sequence of events,
/// first event first.
pub open spec fn spec_run(phase: Phase, events: Seq<Event>) -> Phase
    decreases events.len(),
{
    if events.len() == 0 {
        phase
    } else {
        spec_run(spec_step(phase, events[0]), events.drop_first())
    }
}

/// Running a split sequence of events is running its halves in turn.
pub proof fn lemma_run_split(phase: Phase, left: Seq<Event>, right: Seq<Event>)
    ensures
        spec_run(phase, left + right) == spec_run(spec_run(phase, left), right),
    decreases left.len(),
{
    if left.len() == 0 {
        assert(left + right =~= right);
    } else {
        assert((left + right).drop_first() =~= left.drop_first() + right);
        lemma_run_split(spec_step(phase, left[0]), left.drop_first(), right);
    }
}

/// Nothing but wall-clock time crosses an iteration: a completed
/// iteration ends back at `Checking`, the phase it began in, so what
/// the machine does next depends only on the next events, never on
/// the outcome of the iteration just finished.
pub proof fn lemma_iterations_independent(done: Seq<Event>, next: Seq<Event>)
    requires
        spec_run(Phase::Checking, done) == Phase::Checking,
    ensures
        spec_run(Phase::Checking, done + next) == spec_run(Phase::Checking, next),
{
    lemma_run_split(Phase::Checking, done, next);
}

} // verus!
