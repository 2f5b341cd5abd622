//! The ways of sending a payload.

pub mod http;
