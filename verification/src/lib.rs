//! Client-side streaming engine for a block-range archive service.
//!
//! A remote archive answers range-scoped queries over blocks, transactions,
//! logs and traces.  This crate holds the verified core of the client: the
//! query partitioner and ordered dispatch coordinator, the retry/backoff
//! policy, the event-join field augmenter, the response aggregation used by
//! the `collect` APIs, and the parquet sink's rollover bookkeeping.  The
//! HTTP transport, the Arrow IPC parser and the async plumbing live outside
//! this crate and drive these state machines.

pub mod augment;
pub mod collect;
pub mod config;
pub mod errors;
pub mod format;
pub mod net_types;
pub mod retry;
pub mod sink;
pub mod stream;
pub mod types;
