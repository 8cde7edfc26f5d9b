//! Settings of the log output.

use vstd::prelude::*;

verus! {

/// Where the logs go and how much is logged.
#[derive(Debug, PartialEq, Eq)]
pub struct LoggingOptions {
    /// The directory of the log files.
    pub dir: String,
    /// The log filter; `None` leaves the choice to the environment.
    pub level: Option<String>,
}

impl Default for LoggingOptions {
    fn default() -> (options: LoggingOptions)
        ensures
            options.dir@ == "/tmp/greptimedb-client/logs"@,
            options.level is None,
    {
        LoggingOptions { dir: "/tmp/greptimedb-client/logs".to_owned(), level: None }
    }
}

/// The log filter in force: the one of the options, else the one of the
/// environment, else `info`.
pub open spec fn spec_targets_string(level: Option<Seq<char>>, env_level: Option<Seq<char>>) -> Seq<char> {
    match level {
        Some(l) => l,
        None => match env_level {
            Some(e) => e,
            None => "info"@,
        },
    }
}

/// The text of an optional string.
pub open spec fn opt_text(s: Option<String>) -> Option<Seq<char>> {
    match s {
        Some(s) => Some(s@),
        None => None,
    }
}

/// The log filter in force, given the one of the options and the one found in
/// the environment.
pub fn targets_string(level: Option<String>, env_level: Option<String>) -> (targets: String)
    ensures
        targets@ == spec_targets_string(opt_text(level), opt_text(env_level)),
{
    match level {
        Some(l) => l,
        None => match env_level {
            Some(e) => e,
            None => "info".to_owned(),
        },
    }
}

} // verus!
