//! Severities and the threshold filter.

use vstd::prelude::*;

verus! {

/// A message severity. The four values are totally ordered:
/// `Debug < Info < Warning < Error`.
#[derive(Debug, Copy, Clone, PartialEq, Eq, Structural)]
pub enum LogLevel {
    Debug,
    Info,
    Warning,
    Error,
}

/// The position of a severity in the total order, `Debug` lowest.
pub open spec fn severity_rank(level: LogLevel) -> int {
    match level {
        LogLevel::Debug => 0,
        LogLevel::Info => 1,
        LogLevel::Warning => 2,
        LogLevel::Error => 3,
    }
}

/// A message at severity `level` is emitted under threshold `threshold`
/// exactly when its severity is at least the threshold.
pub open spec fn passes_threshold(level: LogLevel, threshold: LogLevel) -> bool {
    severity_rank(level) >= severity_rank(threshold)
}

/// The fixed upper-case name of each severity.
pub open spec fn level_name(level: LogLevel) -> Seq<char> {
    match level {
        LogLevel::Debug => "DEBUG"@,
        LogLevel::Info => "INFO"@,
        LogLevel::Warning => "WARNING"@,
        LogLevel::Error => "ERROR"@,
    }
}

/// The upper-case name of a severity, as a borrowed string.
pub fn level_string(level: LogLevel) -> (r: &'static str)
    ensures
        r@ == level_name(level),
{
    match level {
        LogLevel::Debug => "DEBUG",
        LogLevel::Info => "INFO",
        LogLevel::Warning => "WARNING",
        LogLevel::Error => "ERROR",
    }
}

/// Decides the filter of the logger: true exactly when a message at
/// `level` is emitted under the threshold `threshold`.
pub fn meets_threshold(level: LogLevel, threshold: LogLevel) -> (r: bool)
    ensures
        r == passes_threshold(level, threshold),
{
    rank(level) >= rank(threshold)
}

/// The rank of a severity as a machine integer.
fn rank(level: LogLevel) -> (r: u8)
    ensures
        r == severity_rank(level),
{
    match level {
        LogLevel::Debug => 0,
        LogLevel::Info => 1,
        LogLevel::Warning => 2,
        LogLevel::Error => 3,
    }
}

} // verus!
