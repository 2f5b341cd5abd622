//! The unit of transmission: the lines of one batch, grouped by source.

use vstd::prelude::*;
use crate::log_event::{LogEvent, LogEventView, Timestamp};

verus! {

/// One transmitted line.
#[derive(Clone, Debug, PartialEq, Eq)]
pub struct Logs {
    pub data: String,
    pub timestamp: Timestamp,
}

/// Mathematical value of a [`Logs`].
pub struct LogsView {
    pub data: Seq<char>,
    pub timestamp: Timestamp,
}

impl View for Logs {
    type V = LogsView;

    open spec fn view(&self) -> LogsView {
        LogsView { data: self.data@, timestamp: self.timestamp }
    }
}

/// The lines of one source, oldest first.
#[derive(Clone, Debug, PartialEq, Eq)]
pub struct Source {
    pub source_name: String,
    pub logs: Vec<Logs>,
}

/// Mathematical value of a [`Source`].
pub struct SourceView {
    pub source_name: Seq<char>,
    pub logs: Seq<LogsView>,
}

impl View for Source {
    type V = SourceView;

    open spec fn view(&self) -> SourceView {
        SourceView { source_name: self.source_name@, logs: logs_view(self.logs@) }
    }
}

/// One batch as it is handed to the dispatcher.
#[derive(Clone, Debug, PartialEq, Eq)]
pub struct Payload {
    pub agent_name: String,
    pub sources: Vec<Source>,
}

/// Mathematical value of a [`Payload`].
pub struct PayloadView {
    pub agent_name: Seq<char>,
    pub sources: Seq<SourceView>,
}

impl View for Payload {
    type V = PayloadView;

    open spec fn view(&self) -> PayloadView {
        PayloadView { agent_name: self.agent_name@, sources: sources_view(self.sources@) }
    }
}

/// The values of a run of lines.
pub open spec fn logs_view(logs: Seq<Logs>) -> Seq<LogsView> {
    logs.map_values(|l: Logs| l@)
}

/// The values of a run of source groups.
pub open spec fn sources_view(sources: Seq<Source>) -> Seq<SourceView> {
    sources.map_values(|s: Source| s@)
}

/// The line that an event is transmitted as.
pub open spec fn logs_of_event(event: LogEventView) -> LogsView {
    LogsView { data: event.log, timestamp: event.timestamp }
}

impl Logs {
    /// Turns a detected line into its transmitted form: the text and the
    /// instant are kept, the source name is dropped.
    pub fn from_event(log_event: LogEvent) -> (logs: Logs)
        ensures
            logs@ == logs_of_event(log_event@),
    {
        Logs { data: log_event.log, timestamp: log_event.timestamp }
    }
}

impl Source {
    /// The group of `logs` detected in the source called `source_name`.
    pub fn new(source_name: String, logs: Vec<Logs>) -> (source: Source)
        ensures
            source.source_name == source_name,
            source.logs == logs,
    {
        Source { source_name, logs }
    }
}

impl Payload {
    /// The batch `sources`, sent in the name of `agent_name`.
    pub fn new(agent_name: String, sources: Vec<Source>) -> (payload: Payload)
        ensures
            payload.agent_name == agent_name,
            payload.sources == sources,
    {
        Payload { agent_name, sources }
    }
}

} // verus!
