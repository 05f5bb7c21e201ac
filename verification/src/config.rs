//! The supervisor's fixed configuration: the paths, the pattern the
//! scanner looks for, and the poll interval.  Built once at startup
//! and passed by reference, so tests can inject other values.

use vstd::prelude::*;

verus! {

/// The immutable configuration of one supervisor run.
#[derive(Debug)]
pub struct Config {
    /// Where crash-log lines are appended.
    pub log_path: String,
    /// The daemon executable to start.
    pub daemon_path: String,
    /// The configuration file handed to the daemon as its one argument.
    pub config_path: String,
    /// The substring of a command line that identifies the daemon.
    pub daemon_pattern: String,
    /// Seconds slept between two liveness checks.
    pub poll_interval_secs: u64,
}

impl Config {
    /// The one built-in configuration the supervisor runs with.
    pub fn fixed() -> (c: Config)
        ensures
            c.log_path@ == "/media/card/crash.log"@,
            c.daemon_path@ == "/media/card/rayhunter-daemon"@,
            c.config_path@ == "/data/rayhunter/config.toml"@,
            c.daemon_pattern@ == "rayhunter-daemon"@,
            c.poll_interval_secs == 5,
    {
        Config {
            log_path: String::from_str("/media/card/crash.log"),
            daemon_path: String::from_str("/media/card/rayhunter-daemon"),
            config_path: String::from_str("/data/rayhunter/config.toml"),
            daemon_pattern: String::from_str("rayhunter-daemon"),
            poll_interval_secs: 5,
        }
    }
}

} // verus!
