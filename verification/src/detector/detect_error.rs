//! Why a detector stumbled or stopped.

use vstd::prelude::*;
use vstd::string::to_string_from_display_ensures;

verus! {

/// The I/O error of the standard library, carried through untouched.
#[verifier::external_type_specification]
#[verifier::external_body]
pub struct ExIoError(std::io::Error);

/// The kinds of I/O error that a detector tells apart.
#[derive(Clone, Copy, Debug, PartialEq, Eq, Structural)]
pub enum IoFailureKind {
    /// `std::io::ErrorKind::Interrupted`
    Interrupted,
    /// `std::io::ErrorKind::WouldBlock`
    WouldBlock,
    /// Every other kind.
    Other,
}

/// The kind that `std::io::Error::kind` reports for `error`, as a detector
/// sees it.
pub uninterp spec fn io_kind(error: std::io::Error) -> IoFailureKind;

/// Reads the kind of `error` with `std::io::Error::kind`.
///
/// Trusted: the kind is a property of the error value, so it is given the
/// name [`io_kind`]; `Interrupted` and `WouldBlock` are told apart and every
/// other kind is reported as `Other`.
#[verifier::external_body]
fn kind_of(error: &std::io::Error) -> (kind: IoFailureKind)
    ensures
        kind == io_kind(*error),
{
    match error.kind() {
        std::io::ErrorKind::Interrupted => IoFailureKind::Interrupted,
        std::io::ErrorKind::WouldBlock => IoFailureKind::WouldBlock,
        _ => IoFailureKind::Other,
    }
}

/// Whether a detector goes on after an I/O error of this kind.
pub open spec fn is_recoverable_kind(kind: IoFailureKind) -> bool {
    kind is Interrupted || kind is WouldBlock
}

/// Why a detector stumbled or stopped.
#[derive(Debug)]
pub enum DetectError {
    /// A passing fault: the detector waits and tries again.
    Recoverable(std::io::Error),
    /// A fault that ends the detector. Other detectors keep running.
    UnRecoverable(std::io::Error),
    /// The queue to the aggregator is closed for good.
    ChannelClosed,
}

impl DetectError {
    /// The error that an I/O error of kind `kind` stands for.
    pub open spec fn of_kind(kind: IoFailureKind, error: std::io::Error) -> DetectError {
        if is_recoverable_kind(kind) {
            DetectError::Recoverable(error)
        } else {
            DetectError::UnRecoverable(error)
        }
    }

    /// Whether the detector goes on after this error.
    pub open spec fn recoverable(self) -> bool {
        self is Recoverable
    }

    /// Files `error` by its kind: an interrupted or would-block operation can
    /// be tried again, anything else cannot.
    pub fn classify(kind: IoFailureKind, error: std::io::Error) -> (classified: DetectError)
        ensures
            classified == DetectError::of_kind(kind, error),
    {
        match kind {
            IoFailureKind::Interrupted | IoFailureKind::WouldBlock => DetectError::Recoverable(
                error,
            ),
            IoFailureKind::Other => DetectError::UnRecoverable(error),
        }
    }

    /// Files `error` by the kind that it reports.
    pub fn from_io_error(error: std::io::Error) -> (classified: DetectError)
        ensures
            classified == DetectError::of_kind(io_kind(error), error),
    {
        let kind = kind_of(&error);
        DetectError::classify(kind, error)
    }

    /// The line that reports this error: the text of the I/O error, or a
    /// fixed line for the closed queue.
    pub fn message(&self) -> (text: String)
        ensures
            match *self {
                DetectError::Recoverable(e) => to_string_from_display_ensures::<std::io::Error>(
                    &e,
                    text,
                ),
                DetectError::UnRecoverable(e) => to_string_from_display_ensures::<std::io::Error>(
                    &e,
                    text,
                ),
                DetectError::ChannelClosed => text@ == "receiver channel closed"@,
            },
    {
        match self {
            DetectError::Recoverable(e) => e.to_string(),
            DetectError::UnRecoverable(e) => e.to_string(),
            DetectError::ChannelClosed => "receiver channel closed".to_owned(),
        }
    }

    /// Whether the detector goes on after this error.
    pub fn is_recoverable(&self) -> (recoverable: bool)
        ensures
            recoverable == self.recoverable(),
    {
        match self {
            DetectError::Recoverable(_) => true,
            _ => false,
        }
    }
}

impl From<std::io::Error> for DetectError {
    fn from(value: std::io::Error) -> (classified: DetectError) {
        DetectError::from_io_error(value)
    }
}

impl vstd::std_specs::convert::FromSpecImpl<std::io::Error> for DetectError {
    open spec fn obeys_from_spec() -> bool {
        true
    }

    open spec fn from_spec(value: std::io::Error) -> DetectError {
        DetectError::of_kind(io_kind(value), value)
    }
}

} // verus!
