//! Response envelopes delivered by the streaming engine.
//!
//! The engine never inspects the columnar payloads it moves around, so
//! the envelope types are generic over the batch payload `B`: the
//! transport layer instantiates `B` with parsed Arrow record batches, and
//! the typed layer with row vectors.

use vstd::prelude::*;
use crate::net_types::RollbackGuard;

verus! {

/// The per-kind batch lists of a raw columnar response.
#[derive(Debug, Clone)]
pub struct ArrowResponseData<B> {
    pub blocks: Vec<B>,
    pub transactions: Vec<B>,
    pub logs: Vec<B>,
    pub traces: Vec<B>,
    pub decoded_logs: Vec<B>,
}

/// Server response for one sub-query, in columnar form.
///
/// `next_block` is the first block not yet covered: the resume point.  A
/// valid response to a sub-query over `[from, to)` satisfies
/// `from <= next_block <= to`.
#[derive(Debug, Clone)]
pub struct ArrowResponse<B> {
    pub archive_height: Option<u64>,
    pub next_block: u64,
    pub total_execution_time: u64,
    pub data: ArrowResponseData<B>,
    pub rollback_guard: Option<RollbackGuard>,
}

/// The per-kind batch lists of a typed response.
#[derive(Debug, Clone)]
pub struct ResponseData<B> {
    pub blocks: Vec<B>,
    pub transactions: Vec<B>,
    pub logs: Vec<B>,
    pub traces: Vec<B>,
}

/// Server response for one sub-query, after row decoding.
#[derive(Debug, Clone)]
pub struct QueryResponse<B> {
    pub archive_height: Option<u64>,
    pub next_block: u64,
    pub total_execution_time: u64,
    pub data: ResponseData<B>,
    pub rollback_guard: Option<RollbackGuard>,
}

/// Server response for one sub-query on the event path: one list of
/// joined events per response.
#[derive(Debug, Clone)]
pub struct EventResponse<E> {
    pub archive_height: Option<u64>,
    pub next_block: u64,
    pub total_execution_time: u64,
    pub data: Vec<Vec<E>>,
    pub rollback_guard: Option<RollbackGuard>,
}

impl<B> ArrowResponseData<B> {
    /// A response payload with no batches of any kind.
    pub fn empty() -> (r: ArrowResponseData<B>)
        ensures
            r.blocks@.len() == 0,
            r.transactions@.len() == 0,
            r.logs@.len() == 0,
            r.traces@.len() == 0,
            r.decoded_logs@.len() == 0,
    {
        ArrowResponseData {
            blocks: Vec::new(),
            transactions: Vec::new(),
            logs: Vec::new(),
            traces: Vec::new(),
            decoded_logs: Vec::new(),
        }
    }
}

impl<B> ResponseData<B> {
    /// A response payload with no batches of any kind.
    pub fn empty() -> (r: ResponseData<B>)
        ensures
            r.blocks@.len() == 0,
            r.transactions@.len() == 0,
            r.logs@.len() == 0,
            r.traces@.len() == 0,
    {
        ResponseData {
            blocks: Vec::new(),
            transactions: Vec::new(),
            logs: Vec::new(),
            traces: Vec::new(),
        }
    }
}

} // verus!
