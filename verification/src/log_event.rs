//! A detected line together with its source and its time of detection.

use vstd::prelude::*;

verus! {

/// A UTC instant: whole seconds since 1970-01-01T00:00:00Z and the
/// nanoseconds into that second.
#[derive(Clone, Copy, Debug, PartialEq, Eq, Structural)]
pub struct Timestamp {
    pub secs: i64,
    pub nanos: u32,
}

/// One line detected in a watched file.
#[derive(Clone, Debug, PartialEq, Eq)]
pub struct LogEvent {
    pub name: String,
    pub log: String,
    pub timestamp: Timestamp,
}

/// Mathematical value of a [`LogEvent`].
pub struct LogEventView {
    pub name: Seq<char>,
    pub log: Seq<char>,
    pub timestamp: Timestamp,
}

impl View for LogEvent {
    type V = LogEventView;

    open spec fn view(&self) -> LogEventView {
        LogEventView { name: self.name@, log: self.log@, timestamp: self.timestamp }
    }
}

/// Reads the wall clock through `chrono::Utc::now`.
///
/// Trusted: the instant that comes back is whatever the system clock says, so
/// nothing is claimed about the seconds. The nanoseconds are those of a
/// `std::time::Duration` since the epoch and therefore stay below one second.
/// The outside call panics where the system clock stands before 1970.
#[verifier::external_body]
fn utc_now() -> (t: Timestamp)
    ensures
        t.nanos < 1_000_000_000,
{
    let now = chrono::Utc::now();
    Timestamp { secs: now.timestamp(), nanos: now.timestamp_subsec_nanos() }
}

impl LogEvent {
    /// An event for `log`, detected in source `name` at the instant `timestamp`.
    pub fn at(name: String, log: String, timestamp: Timestamp) -> (event: LogEvent)
        ensures
            event.name == name,
            event.log == log,
            event.timestamp == timestamp,
    {
        LogEvent { name, log, timestamp }
    }

    /// An event for `log`, detected in source `name` right now.
    pub fn new(name: String, log: String) -> (event: LogEvent)
        ensures
            event.name == name,
            event.log == log,
            event.timestamp.nanos < 1_000_000_000,
    {
        let timestamp = utc_now();
        LogEvent::at(name, log, timestamp)
    }
}

} // verus!
