//! Tailing one file.
//!
//! A [`Detector`] holds what has to be remembered between two looks at a
//! watched file and decides what each look means. Opening, reading and
//! sleeping are the caller's: it reports what a read gave and does what the
//! detector answers.

use vstd::prelude::*;
use crate::config::SourceConfig;
use crate::log_event::{LogEvent, Timestamp};
use crate::sender::payload::logs_of_event;

pub mod detect_error;
pub mod detect_event;

pub use detect_error::DetectError;
pub use detect_event::DetectEvent;

use detect_event::{is_line_end, lemma_stripped, strip_line_end, stripped};

verus! {

/// What one read of the watched file gave.
#[derive(Clone, Debug, PartialEq, Eq)]
pub enum ReadOutcome {
    /// A line as it stands in the file, its line end included.
    Line(String),
    /// No more bytes. `file_len` is the length of the file at the watched
    /// path, taken after the read.
    End { file_len: u64 },
}

/// What the tail loop has to do next.
#[derive(Debug)]
pub enum DetectAction {
    /// Hand the event to the aggregator, waiting for room, then read on.
    Send(LogEvent),
    /// Read on at once.
    ReadOn,
    /// Pause for so many milliseconds, then read on.
    Sleep(u64),
    /// Drop the open file, open the path anew at its end and report the
    /// outcome through [`Detector::handle_rotate`].
    Reopen,
    /// End this detector.
    Stop(DetectError),
}

/// The state of one tail loop.
pub struct Detector {
    source: SourceConfig,
    current_len: u64,
    rotating: bool,
}

/// Mathematical value of a [`Detector`].
pub struct DetectorView {
    /// Name of the watched source.
    pub name: Seq<char>,
    /// Path of the watched file.
    pub log_path: Seq<char>,
    /// Pause between two looks at a file that has nothing new.
    pub delay_ms: u64,
    /// Length of the file when it was last measured.
    pub current_len: u64,
    /// Whether the file was found replaced and has not been reopened yet.
    pub rotating: bool,
}

impl View for Detector {
    type V = DetectorView;

    closed spec fn view(&self) -> DetectorView {
        DetectorView {
            name: self.source.name@,
            log_path: self.source.log_path@,
            delay_ms: self.source.delay_ms,
            current_len: self.current_len,
            rotating: self.rotating,
        }
    }
}

impl DetectorView {
    /// Whether a file of length `file_len` has been replaced since the last
    /// measurement: it has, if it is shorter.
    pub open spec fn sees_rotation(self, file_len: u64) -> bool {
        file_len < self.current_len
    }

    /// The detector after an end of file at which the file had the length
    /// `file_len`.
    pub open spec fn after_end(self, file_len: u64) -> DetectorView {
        if self.sees_rotation(file_len) {
            DetectorView { rotating: true, ..self }
        } else {
            DetectorView { current_len: file_len, ..self }
        }
    }

    /// The detector after its file was opened anew with the length
    /// `current_len`.
    pub open spec fn reopened(self, current_len: u64) -> DetectorView {
        DetectorView { current_len, rotating: false, ..self }
    }

    /// The detector after the turn on `read`.
    pub open spec fn after_turn(self, read: Result<ReadOutcome, DetectError>) -> DetectorView {
        match read {
            Ok(ReadOutcome::End { file_len }) if !self.rotating => self.after_end(file_len),
            _ => self,
        }
    }

    /// Whether `action` is the answer of the turn on `read`, the clock left
    /// aside.
    ///
    /// A detector that waits for its file to be reopened asks for that and
    /// for nothing else. Otherwise a line is sent on without its line end,
    /// unless nothing is left of it; an end of file asks for a reopening
    /// where the file has shrunk and for a pause where it has not; an error
    /// that may pass asks for a pause, and any other error ends the detector.
    pub open spec fn answers(
        self,
        read: Result<ReadOutcome, DetectError>,
        action: DetectAction,
    ) -> bool {
        if self.rotating {
            action is Reopen
        } else {
            match read {
                Ok(ReadOutcome::Line(line)) => if stripped(line@).len() == 0 {
                    action is ReadOn
                } else {
                    &&& action matches DetectAction::Send(event)
                    &&& event@.name == self.name
                    &&& event@.log == stripped(line@)
                },
                Ok(ReadOutcome::End { file_len }) => if self.sees_rotation(file_len) {
                    action is Reopen
                } else {
                    action == DetectAction::Sleep(self.delay_ms)
                },
                Err(DetectError::Recoverable(_)) => action == DetectAction::Sleep(self.delay_ms),
                Err(error) => action == DetectAction::Stop(error),
            }
        }
    }
}

impl Detector {
    /// A detector for `source`, whose file was opened at its end and had the
    /// length `current_len` then.
    pub fn build(source: SourceConfig, current_len: u64) -> (detector: Detector)
        ensures
            detector@ == (DetectorView {
                name: source.name@,
                log_path: source.log_path@,
                delay_ms: source.delay_ms,
                current_len,
                rotating: false,
            }),
    {
        Detector { source, current_len, rotating: false }
    }

    /// The watched source.
    pub fn source(&self) -> (source: &SourceConfig)
        ensures
            source.name@ == self@.name,
            source.log_path@ == self@.log_path,
            source.delay_ms == self@.delay_ms,
    {
        &self.source
    }

    /// Length of the file when it was last measured.
    pub fn current_len(&self) -> (len: u64)
        ensures
            len == self@.current_len,
    {
        self.current_len
    }

    /// Whether the file was found replaced and has not been reopened yet.
    pub fn is_rotating(&self) -> (rotating: bool)
        ensures
            rotating == self@.rotating,
    {
        self.rotating
    }

    /// Reads one look at the file: a line loses its line end; an end of file
    /// is a rotation where the file has shrunk since it was last measured,
    /// and otherwise the new length is remembered.
    pub fn next_event(&mut self, read: ReadOutcome) -> (event: DetectEvent)
        ensures
            match read {
                ReadOutcome::Line(line) => {
                    &&& final(self)@ == old(self)@
                    &&& event matches DetectEvent::NewLine(text)
                    &&& text@ == stripped(line@)
                },
                ReadOutcome::End { file_len } => final(self)@ == old(self)@.after_end(file_len)
                    && if old(self)@.sees_rotation(file_len) {
                    event is Rotated
                } else {
                    event is EndOfFile
                },
            },
    {
        match read {
            ReadOutcome::Line(line) => DetectEvent::NewLine(strip_line_end(line.as_str())),
            ReadOutcome::End { file_len } => {
                if file_len < self.current_len {
                    self.rotating = true;
                    DetectEvent::Rotated
                } else {
                    self.current_len = file_len;
                    DetectEvent::EndOfFile
                }
            },
        }
    }

    /// Turns a stripped line into the event to send, stamped `now`. An empty
    /// line gives none.
    pub fn handle_newline_at(&self, log: String, now: Timestamp) -> (event: Option<LogEvent>)
        ensures
            log@.len() == 0 ==> event is None,
            log@.len() > 0 ==> event is Some && event->0@.name == self@.name && event->0@.log
                == log@ && event->0@.timestamp == now,
    {
        if log.as_str().is_empty() {
            return None;
        }
        Some(LogEvent::at(self.source.name.clone(), log, now))
    }

    /// Turns a stripped line into the event to send, stamped with the
    /// current time. An empty line gives none.
    pub fn handle_newline(&self, log: String) -> (event: Option<LogEvent>)
        ensures
            log@.len() == 0 ==> event is None,
            log@.len() > 0 ==> event is Some && event->0@.name == self@.name && event->0@.log
                == log@,
    {
        if log.as_str().is_empty() {
            return None;
        }
        Some(LogEvent::new(self.source.name.clone(), log))
    }

    /// Takes note of how the reopening went. Where the file was opened, with
    /// the length `current_len` at that moment, the detector tails it from
    /// there; where it was not, the detector keeps waiting for it and the
    /// error is handed back.
    pub fn handle_rotate(&mut self, reopened: Result<u64, DetectError>) -> (outcome: Result<
        (),
        DetectError,
    >)
        ensures
            match reopened {
                Ok(current_len) => outcome is Ok && final(self)@ == old(self)@.reopened(
                    current_len,
                ),
                Err(error) => outcome == Err::<(), DetectError>(error) && final(self)@ == old(
                    self,
                )@,
            },
    {
        match reopened {
            Ok(current_len) => {
                self.current_len = current_len;
                self.rotating = false;
                Ok(())
            },
            Err(error) => Err(error),
        }
    }

    /// One turn of the tail loop on what the last read gave, with the
    /// current time at hand for the event that may come of it.
    pub fn detect_at(&mut self, read: Result<ReadOutcome, DetectError>, now: Timestamp) -> (action:
        DetectAction)
        ensures
            final(self)@ == old(self)@.after_turn(read),
            old(self)@.answers(read, action),
            action matches DetectAction::Send(event) ==> event@.timestamp == now,
    {
        if self.rotating {
            return DetectAction::Reopen;
        }
        match read {
            Ok(read) => match self.next_event(read) {
                DetectEvent::NewLine(line) => match self.handle_newline_at(line, now) {
                    Some(event) => DetectAction::Send(event),
                    None => DetectAction::ReadOn,
                },
                DetectEvent::Rotated => DetectAction::Reopen,
                DetectEvent::EndOfFile => DetectAction::Sleep(self.source.delay_ms),
            },
            Err(DetectError::Recoverable(_)) => DetectAction::Sleep(self.source.delay_ms),
            Err(error) => DetectAction::Stop(error),
        }
    }

    /// One turn of the tail loop on what the last read gave.
    pub fn detect(&mut self, read: Result<ReadOutcome, DetectError>) -> (action: DetectAction)
        ensures
            final(self)@ == old(self)@.after_turn(read),
            old(self)@.answers(read, action),
    {
        if self.rotating {
            return DetectAction::Reopen;
        }
        match read {
            Ok(read) => match self.next_event(read) {
                DetectEvent::NewLine(line) => match self.handle_newline(line) {
                    Some(event) => DetectAction::Send(event),
                    None => DetectAction::ReadOn,
                },
                DetectEvent::Rotated => DetectAction::Reopen,
                DetectEvent::EndOfFile => DetectAction::Sleep(self.source.delay_ms),
            },
            Err(DetectError::Recoverable(_)) => DetectAction::Sleep(self.source.delay_ms),
            Err(error) => DetectAction::Stop(error),
        }
    }
}

/// A file that is found shorter than it was last measured puts the detector
/// into rotation, and the turn asks for the file to be reopened.
pub proof fn lemma_shrink_starts_rotation(
    detector: DetectorView,
    file_len: u64,
    action: DetectAction,
)
    requires
        !detector.rotating,
        file_len < detector.current_len,
        detector.answers(Ok(ReadOutcome::End { file_len }), action),
    ensures
        action is Reopen,
        detector.after_turn(Ok(ReadOutcome::End { file_len })).rotating,
{
}

/// A detector in rotation sends nothing and stays in rotation, whatever is
/// read from the file that was open before: the next line that it sends can
/// only come after [`Detector::handle_rotate`] has taken note of the reopened
/// file.
pub proof fn lemma_rotation_holds_lines_back(
    detector: DetectorView,
    read: Result<ReadOutcome, DetectError>,
    action: DetectAction,
)
    requires
        detector.rotating,
        detector.answers(read, action),
    ensures
        action is Reopen,
        detector.after_turn(read) == detector,
{
}

/// A line that a detector sends is never empty and never ends in a carriage
/// return or a line feed, and neither does the text that is transmitted for
/// it.
pub proof fn lemma_sent_lines_are_clean(
    detector: DetectorView,
    read: Result<ReadOutcome, DetectError>,
    action: DetectAction,
)
    requires
        detector.answers(read, action),
        action is Send,
    ensures
        action->Send_0@.log.len() > 0,
        !is_line_end(action->Send_0@.log.last()),
        logs_of_event(action->Send_0@).data == action->Send_0@.log,
{
    match read {
        Ok(ReadOutcome::Line(line)) => {
            lemma_stripped(line@);
        },
        _ => {},
    }
}

} // verus!
