//! Decision logic of a log-shipping agent.
//!
//! The agent tails a fixed set of log files, groups the detected lines into
//! payloads keyed by source, and forwards the payloads to a collector with
//! bounded concurrency and retry with backoff. This crate holds the rules of
//! that pipeline: every stage is a state machine that is handed what the
//! outside world did and answers with what to do next.

pub mod config;
pub mod detector;
pub mod event_bucket;
pub mod log_event;
pub mod sender;
