//! Command dispatcher and event-loop bridge of a window host that is driven
//! by line-delimited JSON.
//!
//! The host reads one command envelope per input line, hands the decoded
//! envelopes one at a time to the thread that owns the native windowing
//! state, and answers each with exactly one response envelope, in order.

pub mod coordinator;
pub mod decimal;
pub mod handler;
pub mod ipc;
pub mod json;
