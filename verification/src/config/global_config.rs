//! Process-wide settings.

use vstd::prelude::*;

verus! {

/// How payloads are sent.
#[derive(Clone, Copy, Debug, PartialEq, Eq, Structural)]
pub enum SendType {
    HTTP,
}

/// Settings shared by every stage of the pipeline.
#[derive(Clone, Debug, PartialEq, Eq)]
pub struct GlobalConfig {
    /// Name under which this agent reports.
    pub agent_name: String,
    /// Where payloads are sent.
    pub end_point: String,
    pub send_type: SendType,
    /// Most sends that may be outstanding at once.
    pub max_send_task: u8,
    /// Attempts per payload, the first one included.
    pub retry_count: u32,
    /// Base delay of the backoff between attempts.
    pub retry_delay_ms: u64,
    /// Capacity of each queue between two stages.
    pub channel_bound: usize,
    /// Period of the aggregator's time trigger.
    pub interval_secs: u64,
    /// Number of buffered lines at which the aggregator flushes.
    pub max_batch_size: u8,
}

/// `max_send_task` where the configuration names none.
pub fn default_max_send_task() -> (n: u8)
    ensures
        n == 5,
{
    5
}

/// `retry_count` where the configuration names none.
pub fn default_retry_count() -> (n: u32)
    ensures
        n == 3,
{
    3
}

/// `retry_delay_ms` where the configuration names none.
pub fn default_retry_delay_ms() -> (n: u64)
    ensures
        n == 100,
{
    100
}

/// `channel_bound` where the configuration names none.
pub fn default_channel_bound() -> (n: usize)
    ensures
        n == 1024,
{
    1024
}

/// `interval_secs` where the configuration names none.
pub fn default_interval_secs() -> (n: u64)
    ensures
        n == 5,
{
    5
}

/// `max_batch_size` where the configuration names none.
pub fn default_max_batch_size() -> (n: u8)
    ensures
        n == 100,
{
    100
}

} // verus!
