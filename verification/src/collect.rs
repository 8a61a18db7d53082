//! Aggregation of a drained stream into one response.
//!
//! The `collect` APIs consume the ordered stream to its end: batches are
//! concatenated in arrival order, the last response's `archive_height`
//! and `next_block` are kept, and the execution times are summed
//! (saturating).  The drain loop lives with the transport layer; one
//! response at a time is folded in here.

use vstd::prelude::*;
use crate::types::{ArrowResponse, ArrowResponseData, EventResponse, QueryResponse, ResponseData};

verus! {

/// Folds columnar responses into one [`ArrowResponse`].
#[derive(Debug)]
pub struct ArrowCollector<B> {
    pub data: ArrowResponseData<B>,
    pub archive_height: Option<u64>,
    pub next_block: u64,
    pub total_execution_time: u64,
}

impl<B> ArrowCollector<B> {
    /// An empty aggregate: no batches, no height, next block zero.
    pub fn new() -> (r: ArrowCollector<B>)
        ensures
            r.data.blocks@.len() == 0,
            r.data.transactions@.len() == 0,
            r.data.logs@.len() == 0,
            r.data.traces@.len() == 0,
            r.data.decoded_logs@.len() == 0,
            r.archive_height is None,
            r.next_block == 0,
            r.total_execution_time == 0,
    {
        ArrowCollector {
            data: ArrowResponseData::empty(),
            archive_height: None,
            next_block: 0,
            total_execution_time: 0,
        }
    }

    /// Folds in the next response of the stream: batches are appended in
    /// order, the response's height and `next_block` replace the held
    /// ones, and its execution time is added.
    pub fn push(&mut self, r: ArrowResponse<B>)
        ensures
            final(self).data.blocks@ == old(self).data.blocks@ + r.data.blocks@,
            final(self).data.transactions@ == old(self).data.transactions@ + r.data.transactions@,
            final(self).data.logs@ == old(self).data.logs@ + r.data.logs@,
            final(self).data.traces@ == old(self).data.traces@ + r.data.traces@,
            final(self).data.decoded_logs@ == old(self).data.decoded_logs@ + r.data.decoded_logs@,
            final(self).archive_height == r.archive_height,
            final(self).next_block == r.next_block,
            final(self).total_execution_time as int == vstd::math::min(
                old(self).total_execution_time + r.total_execution_time,
                u64::MAX as int,
            ),
    {
        let ArrowResponse { archive_height, next_block, total_execution_time, data, rollback_guard: _ } = r;
        let mut data = data;
        self.data.blocks.append(&mut data.blocks);
        self.data.transactions.append(&mut data.transactions);
        self.data.logs.append(&mut data.logs);
        self.data.traces.append(&mut data.traces);
        self.data.decoded_logs.append(&mut data.decoded_logs);
        self.archive_height = archive_height;
        self.next_block = next_block;
        self.total_execution_time = if self.total_execution_time > u64::MAX
            - total_execution_time {
            u64::MAX
        } else {
            self.total_execution_time + total_execution_time
        };
    }

    /// The aggregated response; a fresh aggregate carries no rollback
    /// marker.
    pub fn finish(self) -> (r: ArrowResponse<B>)
        ensures
            r.data == self.data,
            r.archive_height == self.archive_height,
            r.next_block == self.next_block,
            r.total_execution_time == self.total_execution_time,
            r.rollback_guard is None,
    {
        ArrowResponse {
            archive_height: self.archive_height,
            next_block: self.next_block,
            total_execution_time: self.total_execution_time,
            data: self.data,
            rollback_guard: None,
        }
    }
}

/// Folds typed responses into one [`QueryResponse`].
#[derive(Debug)]
pub struct QueryCollector<B> {
    pub data: ResponseData<B>,
    pub archive_height: Option<u64>,
    pub next_block: u64,
    pub total_execution_time: u64,
}

impl<B> QueryCollector<B> {
    /// An empty aggregate: no batches, no height, next block zero.
    pub fn new() -> (r: QueryCollector<B>)
        ensures
            r.data.blocks@.len() == 0,
            r.data.transactions@.len() == 0,
            r.data.logs@.len() == 0,
            r.data.traces@.len() == 0,
            r.archive_height is None,
            r.next_block == 0,
            r.total_execution_time == 0,
    {
        QueryCollector {
            data: ResponseData::empty(),
            archive_height: None,
            next_block: 0,
            total_execution_time: 0,
        }
    }

    /// Folds in the next response of the stream, as
    /// [`ArrowCollector::push`] does for columnar responses.
    pub fn push(&mut self, r: QueryResponse<B>)
        ensures
            final(self).data.blocks@ == old(self).data.blocks@ + r.data.blocks@,
            final(self).data.transactions@ == old(self).data.transactions@ + r.data.transactions@,
            final(self).data.logs@ == old(self).data.logs@ + r.data.logs@,
            final(self).data.traces@ == old(self).data.traces@ + r.data.traces@,
            final(self).archive_height == r.archive_height,
            final(self).next_block == r.next_block,
            final(self).total_execution_time as int == vstd::math::min(
                old(self).total_execution_time + r.total_execution_time,
                u64::MAX as int,
            ),
    {
        let QueryResponse { archive_height, next_block, total_execution_time, data, rollback_guard: _ } = r;
        let mut data = data;
        self.data.blocks.append(&mut data.blocks);
        self.data.transactions.append(&mut data.transactions);
        self.data.logs.append(&mut data.logs);
        self.data.traces.append(&mut data.traces);
        self.archive_height = archive_height;
        self.next_block = next_block;
        self.total_execution_time = if self.total_execution_time > u64::MAX
            - total_execution_time {
            u64::MAX
        } else {
            self.total_execution_time + total_execution_time
        };
    }

    /// The aggregated response; a fresh aggregate carries no rollback
    /// marker.
    pub fn finish(self) -> (r: QueryResponse<B>)
        ensures
            r.data == self.data,
            r.archive_height == self.archive_height,
            r.next_block == self.next_block,
            r.total_execution_time == self.total_execution_time,
            r.rollback_guard is None,
    {
        QueryResponse {
            archive_height: self.archive_height,
            next_block: self.next_block,
            total_execution_time: self.total_execution_time,
            data: self.data,
            rollback_guard: None,
        }
    }
}

/// Folds event responses into one [`EventResponse`], keeping one list of
/// joined events per arrived response.
#[derive(Debug)]
pub struct EventCollector<E> {
    pub data: Vec<Vec<E>>,
    pub archive_height: Option<u64>,
    pub next_block: u64,
    pub total_execution_time: u64,
}

impl<E> EventCollector<E> {
    /// An empty aggregate: no events, no height, next block zero.
    pub fn new() -> (r: EventCollector<E>)
        ensures
            r.data@.len() == 0,
            r.archive_height is None,
            r.next_block == 0,
            r.total_execution_time == 0,
    {
        EventCollector { data: Vec::new(), archive_height: None, next_block: 0, total_execution_time: 0 }
    }

    /// Folds in the next response of the stream: its event lists are
    /// appended in order, its header fields replace the held ones.
    pub fn push(&mut self, r: EventResponse<E>)
        ensures
            final(self).data@ == old(self).data@ + r.data@,
            final(self).archive_height == r.archive_height,
            final(self).next_block == r.next_block,
            final(self).total_execution_time as int == vstd::math::min(
                old(self).total_execution_time + r.total_execution_time,
                u64::MAX as int,
            ),
    {
        let EventResponse { archive_height, next_block, total_execution_time, data, rollback_guard: _ } = r;
        let mut data = data;
        self.data.append(&mut data);
        self.archive_height = archive_height;
        self.next_block = next_block;
        self.total_execution_time = if self.total_execution_time > u64::MAX
            - total_execution_time {
            u64::MAX
        } else {
            self.total_execution_time + total_execution_time
        };
    }

    /// The aggregated response; a fresh aggregate carries no rollback
    /// marker.
    pub fn finish(self) -> (r: EventResponse<E>)
        ensures
            r.data == self.data,
            r.archive_height == self.archive_height,
            r.next_block == self.next_block,
            r.total_execution_time == self.total_execution_time,
            r.rollback_guard is None,
    {
        EventResponse {
            archive_height: self.archive_height,
            next_block: self.next_block,
            total_execution_time: self.total_execution_time,
            data: self.data,
            rollback_guard: None,
        }
    }
}

} // verus!
