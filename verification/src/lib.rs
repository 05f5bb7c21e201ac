//! A minimal process supervisor, split into its three verified pieces:
//! a scanner that decides from a process-table snapshot whether the
//! daemon is alive, a logger that formats timestamped crash-log lines,
//! and the supervision state machine that drives one check/restart
//! cycle.  The host binary performs the actual process-table reads,
//! spawns, sleeps and file writes, and feeds their outcomes back in as
//! plain values.

pub mod clock;
pub mod config;
pub mod cycle;
pub mod logger;
pub mod scanner;
