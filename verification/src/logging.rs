//! Where the log goes.

use vstd::prelude::*;

verus! {

/// A place that log records are sent to.
#[derive(Clone, Copy, Debug, PartialEq, Eq, Structural)]
pub enum LogTarget {
    /// A file in the application's log directory.
    LogDir,
    /// Standard output.
    Stdout,
    /// The console of the interface in the window.
    Webview,
}

/// The least severe records that are let through.
#[derive(Clone, Copy, Debug, PartialEq, Eq, Structural)]
pub enum Verbosity {
    Off,
    Error,
    Warn,
    Info,
    Debug,
    Trace,
}

/// The settings of the logging sink.
#[derive(Debug, PartialEq, Eq)]
pub struct LogPlan {
    /// Every record goes to each of these.
    pub targets: Vec<LogTarget>,
    pub level: Verbosity,
    /// Whether severities are shown in colour.
    pub colored: bool,
}

/// The places that the shell logs to, in the order in which they are set up.
pub open spec fn log_targets() -> Seq<LogTarget> {
    seq![LogTarget::LogDir, LogTarget::Stdout, LogTarget::Webview]
}

/// The logging of the shell: everything, down to trace records, in colour,
/// to the log directory, standard output and the interface's console at once.
pub fn log_plan() -> (plan: LogPlan)
    ensures
        plan.targets@ == log_targets(),
        plan.level == Verbosity::Trace,
        plan.colored,
{
    let mut targets: Vec<LogTarget> = Vec::new();
    targets.push(LogTarget::LogDir);
    targets.push(LogTarget::Stdout);
    targets.push(LogTarget::Webview);
    LogPlan { targets, level: Verbosity::Trace, colored: true }
}

} // verus!
