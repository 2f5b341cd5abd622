//! Sending over HTTP: what to make of each attempt, and when to try again.

use std::sync::Arc;
use vstd::prelude::*;
use vstd::arithmetic::power2::{
    lemma2_to64, lemma_pow2_pos, lemma_pow2_strictly_increases, lemma_pow2_unfold, pow2,
};
use crate::config::GlobalConfig;
use crate::sender::payload::Payload;

pub mod http_error;

pub use http_error::{HttpError, SendFailure};

verus! {

/// No pause between two attempts is longer than this.
pub const MAX_DELAY_MS: u64 = 30_000;

/// The pause after attempt number `attempt` has failed: the base delay,
/// doubled with every attempt already made, and capped.
pub open spec fn backoff_ms(retry_delay_ms: u64, attempt: u32) -> int
    recommends
        attempt >= 1,
{
    let doubled = retry_delay_ms * pow2((attempt - 1) as nat);
    if doubled < MAX_DELAY_MS {
        doubled
    } else {
        MAX_DELAY_MS as int
    }
}

/// The pause before attempt number `attempt`, for the second attempt and
/// every later one.
pub open spec fn pause_before(retry_delay_ms: u64, attempt: u32) -> int
    recommends
        attempt >= 2,
{
    let doubled = retry_delay_ms * pow2((attempt - 2) as nat);
    if doubled < MAX_DELAY_MS {
        doubled
    } else {
        MAX_DELAY_MS as int
    }
}

/// A payload on the retry lane.
#[derive(Clone, Debug)]
pub struct RetryPayload {
    /// The payload, shared and never changed.
    pub payload: Arc<Payload>,
    /// Number of attempts made so far.
    pub attempt: u32,
}

impl RetryPayload {
    /// The entry for a payload whose first attempt has just failed.
    pub fn new(payload: Arc<Payload>) -> (entry: RetryPayload)
        ensures
            entry.payload == payload,
            entry.attempt == 1,
    {
        RetryPayload { payload, attempt: 1 }
    }
}

/// What a retry worker has to do next with its entry.
#[derive(Clone, Copy, Debug, PartialEq, Eq, Structural)]
pub enum RetryAction {
    /// Pause for so many milliseconds, send again and report the outcome.
    Attempt { backoff_ms: u64 },
    /// The last attempt went through: done.
    Delivered,
    /// The last attempt failed for good: the payload is dropped.
    Dropped,
    /// The last attempt failed and none is left: the payload is dropped.
    Exhausted,
}

/// What the first attempt leads to.
#[derive(Clone, Debug)]
pub enum FirstAttempt {
    /// The payload went through.
    Delivered,
    /// The payload failed for good and is dropped.
    Dropped,
    /// The payload failed in a way that may pass: the entry goes to the retry
    /// lane.
    Retry(RetryPayload),
}

/// The settings of the HTTP strategy.
#[derive(Clone, Debug, PartialEq, Eq)]
pub struct HttpSenderStrategy {
    /// Where payloads are posted.
    pub endpoint: String,
    /// Attempts per payload, the first one included.
    pub max_retry_count: u32,
    /// Base delay of the backoff, in milliseconds.
    pub retry_delay_ms: u64,
    /// Number of workers on the retry lane.
    pub retry_workers: u8,
}

impl HttpSenderStrategy {
    /// The strategy that `global` asks for.
    pub fn build(global: &GlobalConfig) -> (strategy: HttpSenderStrategy)
        ensures
            strategy.endpoint@ == global.end_point@,
            strategy.max_retry_count == global.retry_count,
            strategy.retry_delay_ms == global.retry_delay_ms,
            strategy.retry_workers == global.max_send_task,
    {
        HttpSenderStrategy {
            endpoint: global.end_point.clone(),
            max_retry_count: global.retry_count,
            retry_delay_ms: global.retry_delay_ms,
            retry_workers: global.max_send_task,
        }
    }

    /// The pause after attempt number `attempt` has failed:
    /// `base_delay_ms * 2^(attempt - 1)` and at most thirty seconds.
    pub fn calc_backoff(base_delay_ms: u64, attempt: u32) -> (backoff: u64)
        requires
            attempt >= 1,
        ensures
            backoff == backoff_ms(base_delay_ms, attempt),
    {
        let mut backoff: u64 = if base_delay_ms < MAX_DELAY_MS {
            base_delay_ms
        } else {
            MAX_DELAY_MS
        };
        let mut made: u32 = 1;
        proof {
            lemma2_to64();
            assert(base_delay_ms * pow2(0) == base_delay_ms) by (nonlinear_arith)
                requires
                    pow2(0) == 1,
            ;
        }
        while made < attempt && 0 < backoff && backoff < MAX_DELAY_MS
            invariant
                1 <= made <= attempt,
                backoff == backoff_ms(base_delay_ms, made),
            decreases attempt - made,
        {
            proof {
                lemma_pow2_unfold(made as nat);
                assert(base_delay_ms * pow2(made as nat) == 2 * (base_delay_ms * pow2(
                    (made - 1) as nat,
                ))) by (nonlinear_arith)
                    requires
                        pow2(made as nat) == 2 * pow2((made - 1) as nat),
                ;
            }
            backoff = if backoff * 2 < MAX_DELAY_MS {
                backoff * 2
            } else {
                MAX_DELAY_MS
            };
            made += 1;
        }
        proof {
            if made < attempt {
                lemma_pow2_strictly_increases((made - 1) as nat, (attempt - 1) as nat);
                lemma_pow2_pos((made - 1) as nat);
                let low = pow2((made - 1) as nat);
                let high = pow2((attempt - 1) as nat);
                assert(base_delay_ms * low <= base_delay_ms * high) by (nonlinear_arith)
                    requires
                        low <= high,
                        base_delay_ms >= 0,
                ;
                if backoff == 0 {
                    assert(base_delay_ms == 0) by (nonlinear_arith)
                        requires
                            base_delay_ms * low == 0,
                            low > 0,
                            base_delay_ms >= 0,
                    ;
                    assert(base_delay_ms * high == 0) by (nonlinear_arith)
                        requires
                            base_delay_ms == 0,
                    ;
                }
            }
        }
        backoff
    }

    /// What the first attempt at `payload` leads to: a success and a failure
    /// for good end it; a failure that may pass puts the payload, still at
    /// its first attempt, on the retry lane.
    pub fn send(payload: Arc<Payload>, outcome: Result<(), HttpError>) -> (next: FirstAttempt)
        ensures
            match outcome {
                Ok(()) => next is Delivered,
                Err(HttpError::NonRetryable(_)) => next is Dropped,
                Err(HttpError::Retryable(_)) => next matches FirstAttempt::Retry(entry)
                    && entry.payload == payload && entry.attempt == 1,
            },
    {
        match outcome {
            Ok(()) => FirstAttempt::Delivered,
            Err(HttpError::NonRetryable(_)) => FirstAttempt::Dropped,
            Err(HttpError::Retryable(_)) => FirstAttempt::Retry(RetryPayload::new(payload)),
        }
    }

    /// Whether the retry lane makes a further attempt at an entry, given
    /// the outcome of the retry made last (`None` where none was made yet).
    pub open spec fn tries_again(
        self,
        attempt: u32,
        last: Option<Result<(), HttpError>>,
    ) -> bool {
        &&& !(last matches Some(Ok(())))
        &&& !(last matches Some(Err(HttpError::NonRetryable(_))))
        &&& attempt < self.max_retry_count
    }

    /// One step of a retry worker on `entry`, given the outcome of the retry
    /// made last (`None` where none was made yet).
    ///
    /// A retry that went through, or failed for good, ends the work.
    /// Otherwise another attempt is due as long as fewer than
    /// `max_retry_count` were made; it is counted, and the pause before it
    /// grows with the attempts already made.
    pub fn process_retry(
        &self,
        entry: &mut RetryPayload,
        last: Option<Result<(), HttpError>>,
    ) -> (action: RetryAction)
        requires
            old(entry).attempt >= 1,
        ensures
            final(entry).payload == old(entry).payload,
            final(entry).attempt >= 1,
            old(entry).attempt <= self.max_retry_count ==> final(entry).attempt
                <= self.max_retry_count,
            match last {
                Some(Ok(())) => action is Delivered && final(entry).attempt == old(entry).attempt,
                Some(Err(HttpError::NonRetryable(_))) => action is Dropped && final(entry).attempt
                    == old(entry).attempt,
                _ => if old(entry).attempt < self.max_retry_count {
                    &&& final(entry).attempt == old(entry).attempt + 1
                    &&& action matches RetryAction::Attempt { backoff_ms: pause }
                    &&& pause == pause_before(self.retry_delay_ms, final(entry).attempt)
                } else {
                    action is Exhausted && final(entry).attempt == old(entry).attempt
                },
            },
    {
        match last {
            Some(Ok(())) => RetryAction::Delivered,
            Some(Err(HttpError::NonRetryable(_))) => RetryAction::Dropped,
            _ => {
                if entry.attempt < self.max_retry_count {
                    let backoff = HttpSenderStrategy::calc_backoff(
                        self.retry_delay_ms,
                        entry.attempt,
                    );
                    entry.attempt += 1;
                    RetryAction::Attempt { backoff_ms: backoff }
                } else {
                    RetryAction::Exhausted
                }
            },
        }
    }
}

} // verus!
