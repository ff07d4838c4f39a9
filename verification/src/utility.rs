//! Levels of logging, and one line for each of them.

use vstd::prelude::*;

verus! {

/// The level of a log line, from the chattiest to the gravest.
#[derive(Clone, Copy, Debug, PartialEq, Eq, Structural)]
pub enum LogLevel {
    Trace,
    Debug,
    Info,
    Warn,
    Error,
}

/// The lines that show what logging at each level looks like.
pub open spec fn example_lines() -> Seq<(LogLevel, Seq<char>)> {
    seq![
        (LogLevel::Trace, "This is a trace level message demonstrating detailed logging."@),
        (LogLevel::Debug, "This is a debug level message for debugging purposes."@),
        (
            LogLevel::Info,
            "This is an info level message, providing general operational information."@,
        ),
        (LogLevel::Warn, "This is a warning, indicating a potential issue."@),
        (LogLevel::Error, "This is an error message, signaling a failure that occurred."@),
        (LogLevel::Info, "This is a generic log! macro message at the Info level."@),
    ]
}

/// A list of log lines as contracts see it.
pub open spec fn line_views(lines: Seq<(LogLevel, &'static str)>) -> Seq<(LogLevel, Seq<char>)> {
    lines.map_values(|line: (LogLevel, &'static str)| (line.0, line.1@))
}

/// One line for each level, and one more at info level, for whoever wants
/// to see what the log looks like. The lines are handed back, not logged.
pub fn log_examples() -> (lines: Vec<(LogLevel, &'static str)>)
    ensures
        line_views(lines@) == example_lines(),
{
    let mut lines: Vec<(LogLevel, &'static str)> = Vec::new();
    lines.push((LogLevel::Trace, "This is a trace level message demonstrating detailed logging."));
    lines.push((LogLevel::Debug, "This is a debug level message for debugging purposes."));
    lines.push(
        (
            LogLevel::Info,
            "This is an info level message, providing general operational information.",
        ),
    );
    lines.push((LogLevel::Warn, "This is a warning, indicating a potential issue."));
    lines.push((LogLevel::Error, "This is an error message, signaling a failure that occurred."));
    lines.push((LogLevel::Info, "This is a generic log! macro message at the Info level."));
    assert(line_views(lines@) =~= example_lines());
    lines
}

} // verus!
