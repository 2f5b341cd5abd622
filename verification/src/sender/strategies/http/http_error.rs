//! Which failed sends are worth another try.

use vstd::prelude::*;

verus! {

/// What is known of a send that failed: the facts by which it is filed.
#[derive(Clone, Copy, Debug, PartialEq, Eq, Structural)]
pub struct SendFailure {
    /// The request ran into its time limit.
    pub timeout: bool,
    /// No connection came about.
    pub connect: bool,
    /// The status of the response, where there was one.
    pub status: Option<u16>,
}

/// A failed send, filed by whether another try may help.
#[derive(Clone, Copy, Debug, PartialEq, Eq, Structural)]
pub enum HttpError {
    /// The cause may pass: the payload goes to the retry lane.
    Retryable(SendFailure),
    /// Another try would fail the same way: the payload is dropped.
    NonRetryable(SendFailure),
}

/// Whether a response with this status reports success.
pub open spec fn is_success_status(status: u16) -> bool {
    200 <= status <= 299
}

/// Whether a response with this status is worth another try: a server error
/// or "too many requests".
pub open spec fn is_retryable_status(status: u16) -> bool {
    500 <= status <= 599 || status == 429
}

/// Whether a failure is worth another try: a timeout and a failed connect
/// are, and otherwise the status decides; a failure without any of these,
/// such as a body that cannot be written, is not.
pub open spec fn is_retryable(failure: SendFailure) -> bool {
    failure.timeout || failure.connect || match failure.status {
        Some(status) => is_retryable_status(status),
        None => false,
    }
}

impl HttpError {
    /// The error that `failure` is filed as.
    pub open spec fn of_failure(failure: SendFailure) -> HttpError {
        if is_retryable(failure) {
            HttpError::Retryable(failure)
        } else {
            HttpError::NonRetryable(failure)
        }
    }

    /// What a response with the status `status` means for the send:
    /// success for 2xx, and otherwise the error that the status is filed as.
    pub open spec fn of_status(status: u16) -> Result<(), HttpError> {
        if is_success_status(status) {
            Ok(())
        } else {
            Err(
                HttpError::of_failure(
                    SendFailure { timeout: false, connect: false, status: Some(status) },
                ),
            )
        }
    }

    /// Files a response by its status.
    pub fn from_status(status: u16) -> (outcome: Result<(), HttpError>)
        ensures
            outcome == HttpError::of_status(status),
    {
        if 200 <= status && status <= 299 {
            Ok(())
        } else {
            Err(HttpError::from(SendFailure { timeout: false, connect: false, status: Some(status) }))
        }
    }

    /// Whether the payload goes to the retry lane.
    pub fn is_retryable(&self) -> (retryable: bool)
        ensures
            retryable == (self is Retryable),
    {
        match self {
            HttpError::Retryable(_) => true,
            HttpError::NonRetryable(_) => false,
        }
    }

    /// The failure that was filed.
    pub fn failure(&self) -> (failure: SendFailure)
        ensures
            failure == match *self {
                HttpError::Retryable(failure) => failure,
                HttpError::NonRetryable(failure) => failure,
            },
    {
        match self {
            HttpError::Retryable(failure) => *failure,
            HttpError::NonRetryable(failure) => *failure,
        }
    }
}

impl From<SendFailure> for HttpError {
    fn from(value: SendFailure) -> (filed: HttpError) {
        if value.timeout || value.connect {
            return HttpError::Retryable(value);
        }
        if let Some(status) = value.status {
            if (500 <= status && status <= 599) || status == 429 {
                return HttpError::Retryable(value);
            } else {
                return HttpError::NonRetryable(value);
            }
        }
        HttpError::NonRetryable(value)
    }
}

impl vstd::std_specs::convert::FromSpecImpl<SendFailure> for HttpError {
    open spec fn obeys_from_spec() -> bool {
        true
    }

    open spec fn from_spec(value: SendFailure) -> HttpError {
        HttpError::of_failure(value)
    }
}

} // verus!
