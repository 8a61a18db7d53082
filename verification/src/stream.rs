//! The query partitioner and ordered dispatch coordinator.
//!
//! A single logical query over `[start, hi)` is split into sub-queries of
//! at most `batch_size` blocks.  Up to `concurrency` sub-queries are in
//! flight at once; results are delivered strictly in submission order, by
//! always completing the oldest in-flight sub-query first.  The server is
//! authoritative on progress: a response may cover less than the
//! requested range (`next_block` below the requested upper bound), in
//! which case the uncovered tail `[next_block, to)` takes the head slot
//! again, so the delivered ranges stay contiguous and no block is
//! skipped.
//!
//! The coordinator makes every partitioning and ordering decision; the
//! transport layer launches the HTTP calls and reports each head result.

use vstd::prelude::*;
use crate::config::StreamConfig;
use crate::net_types::Query;

verus! {

/// A half-open span of blocks `[from, to)` handed to one sub-query.
#[derive(Debug, Clone, Copy, PartialEq, Eq, Structural)]
pub struct BlockRange {
    pub from: u64,
    pub to: u64,
}

/// The decision state of one ordered, bounded-concurrency stream.
///
/// `in_flight` is the FIFO of sub-query ranges that have been launched
/// and not yet delivered, oldest first; the ranges are pairwise
/// contiguous, starting right after the last delivered point and ending
/// at `next_launch`, where the next sub-query would begin.
#[derive(Clone)]
pub struct StreamCoordinator {
    /// `from_block` of the logical query.
    pub start: u64,
    /// Exclusive upper bound of the stream: the query's `to_block`, or
    /// the archive height sampled once at stream start.
    pub hi: u64,
    /// Current span of one sub-query, in blocks; adapted within
    /// `[min_batch_size, max_batch_size]` when a response-size target is
    /// configured.
    pub batch_size: u64,
    /// Lower bound for adaptive sizing.
    pub min_batch_size: u64,
    /// Upper bound for adaptive sizing.
    pub max_batch_size: u64,
    /// Maximum number of in-flight sub-queries.
    pub concurrency: usize,
    /// Launched, undelivered sub-query ranges, oldest first.
    pub in_flight: Vec<BlockRange>,
    /// Resume point of the stream: the `next_block` of the last
    /// delivered response, or `start` before the first delivery.
    pub delivered: u64,
    /// Where the next launched sub-query begins.
    pub next_launch: u64,
    /// Whether the stream was aborted by a failed sub-query.
    pub failed: bool,
    /// The `next_block` values delivered so far, in delivery order.
    pub history: Ghost<Seq<u64>>,
}

impl StreamCoordinator {
    /// The coordinator invariant.
    pub open spec fn wf(&self) -> bool {
        &&& 1 <= self.min_batch_size <= self.batch_size <= self.max_batch_size
        &&& self.concurrency >= 1
        &&& self.in_flight@.len() <= self.concurrency
        &&& self.start <= self.delivered
        &&& self.delivered <= self.next_launch
        &&& (self.in_flight@.len() == 0 ==> self.next_launch == self.delivered)
        &&& (self.in_flight@.len() > 0 ==> self.in_flight@[0].from == self.delivered)
        &&& (self.in_flight@.len() > 0 ==> self.in_flight@.last().to == self.next_launch)
        &&& (self.in_flight@.len() > 0 ==> self.next_launch <= self.hi)
        &&& (forall|i: int|
            0 <= i < self.in_flight@.len() ==> self.in_flight@[i].from < self.in_flight@[i].to)
        &&& (forall|i: int|
            0 <= i < self.in_flight@.len() - 1 ==> self.in_flight@[i].to == self.in_flight@[i
                + 1].from)
        &&& (self.next_launch <= self.hi || (self.next_launch == self.start && self.delivered
            == self.start && self.in_flight@.len() == 0))
        &&& (self.failed ==> self.in_flight@.len() == 0)
        &&& (forall|i: int, j: int|
            0 <= i <= j < self.history@.len() ==> self.history@[i] <= self.history@[j])
        &&& (forall|i: int|
            0 <= i < self.history@.len() ==> self.start <= #[trigger] self.history@[i]
                <= self.delivered)
        &&& (self.history@.len() > 0 ==> self.history@.last() == self.delivered)
        &&& (self.history@.len() == 0 ==> self.delivered == self.start)
    }

    /// A new stream for the block range `[from_block, to_block)`, or for
    /// `[from_block, height)` when the query is open-ended; `height` is
    /// the archive height sampled once at stream start.
    pub fn new(
        from_block: u64,
        to_block: Option<u64>,
        height: u64,
        batch_size: u64,
        concurrency: usize,
    ) -> (r: StreamCoordinator)
        requires
            batch_size >= 1,
            concurrency >= 1,
        ensures
            r.wf(),
            r.start == from_block,
            r.delivered == from_block,
            r.next_launch == from_block,
            r.hi == (match to_block {
                Some(t) => t,
                None => height,
            }),
            r.batch_size == batch_size,
            r.min_batch_size == 1,
            r.max_batch_size == u64::MAX,
            r.concurrency == concurrency,
            r.in_flight@.len() == 0,
            !r.failed,
            r.history@.len() == 0,
    {
        let hi = match to_block {
            Some(t) => t,
            None => height,
        };
        StreamCoordinator {
            start: from_block,
            hi,
            batch_size,
            min_batch_size: 1,
            max_batch_size: u64::MAX,
            concurrency,
            in_flight: Vec::new(),
            delivered: from_block,
            next_launch: from_block,
            failed: false,
            history: Ghost(Seq::empty()),
        }
    }

    /// A new stream for a query under a stream configuration, with the
    /// defaults applied; a zero batch size or concurrency is raised to
    /// one.
    pub fn start(query: &Query, config: &StreamConfig, height: u64) -> (r: StreamCoordinator)
        ensures
            r.wf(),
            r.start == query.from_block,
            r.delivered == query.from_block,
            r.next_launch == query.from_block,
            r.hi == (match query.to_block {
                Some(t) => t,
                None => height,
            }),
            r.batch_size == config.spec_initial_batch(),
            r.min_batch_size == config.spec_min_batch(),
            r.max_batch_size == config.spec_max_batch(),
            r.concurrency == (if config.spec_concurrency() >= 1 {
                config.spec_concurrency()
            } else {
                1usize
            }),
            r.in_flight@.len() == 0,
            !r.failed,
            r.history@.len() == 0,
    {
        let min_given = match config.min_batch_size {
            Some(m) => m,
            None => 1,
        };
        let min_b = if min_given >= 1 {
            min_given
        } else {
            1
        };
        let max_given = match config.max_batch_size {
            Some(m) => m,
            None => u64::MAX,
        };
        let max_b = if max_given >= min_b {
            max_given
        } else {
            min_b
        };
        let b = config.batch_size_or_default();
        let batch_size = if b < min_b {
            min_b
        } else if b > max_b {
            max_b
        } else {
            b
        };
        let c = config.concurrency_or_default();
        let concurrency = if c >= 1 {
            c
        } else {
            1
        };
        let mut r = StreamCoordinator::new(
            query.from_block,
            query.to_block,
            height,
            batch_size,
            concurrency,
        );
        r.min_batch_size = min_b;
        r.max_batch_size = max_b;
        r
    }

    /// Adapts the sub-query span to an observed response size, against
    /// the configured soft byte target: an oversized response halves
    /// the span, one at or under half the target doubles it, and both
    /// moves stay within the configured bounds.
    pub fn adapt_batch_size(&mut self, response_bytes: u64, response_size_ceiling: u64)
        requires
            old(self).wf(),
            response_size_ceiling >= 1,
        ensures
            final(self).wf(),
            response_bytes > response_size_ceiling ==> final(self).batch_size == (
            if old(self).batch_size / 2 >= old(self).min_batch_size {
                old(self).batch_size / 2
            } else {
                old(self).min_batch_size
            }),
            response_bytes <= response_size_ceiling / 2 ==> final(self).batch_size == (
            if old(self).batch_size <= old(self).max_batch_size / 2 {
                (old(self).batch_size * 2) as u64
            } else {
                old(self).max_batch_size
            }),
            (response_size_ceiling / 2 < response_bytes <= response_size_ceiling)
                ==> final(self).batch_size == old(self).batch_size,
            final(self).in_flight@ == old(self).in_flight@,
            final(self).delivered == old(self).delivered,
            final(self).next_launch == old(self).next_launch,
            final(self).start == old(self).start,
            final(self).hi == old(self).hi,
            final(self).min_batch_size == old(self).min_batch_size,
            final(self).max_batch_size == old(self).max_batch_size,
            final(self).concurrency == old(self).concurrency,
            final(self).failed == old(self).failed,
            final(self).history == old(self).history,
    {
        if response_bytes > response_size_ceiling {
            let halved = self.batch_size / 2;
            self.batch_size = if halved >= self.min_batch_size {
                halved
            } else {
                self.min_batch_size
            };
        } else if response_bytes <= response_size_ceiling / 2 {
            self.batch_size = if self.batch_size <= self.max_batch_size / 2 {
                self.batch_size * 2
            } else {
                self.max_batch_size
            };
        }
    }

    /// Whether a new sub-query may be launched now: the stream is live,
    /// a concurrency slot is free, and blocks remain unplanned.
    pub open spec fn spec_can_launch(&self) -> bool {
        &&& !self.failed
        &&& self.in_flight@.len() < self.concurrency
        &&& self.next_launch < self.hi
    }

    /// See [`Self::spec_can_launch`].
    pub fn can_launch(&self) -> (r: bool)
        ensures
            r == self.spec_can_launch(),
    {
        !self.failed && self.in_flight.len() < self.concurrency && self.next_launch < self.hi
    }

    /// Number of launched, undelivered sub-queries.
    pub fn pending(&self) -> (r: usize)
        ensures
            r == self.in_flight@.len(),
    {
        self.in_flight.len()
    }

    /// The oldest in-flight sub-query: the one whose result is delivered
    /// next.
    pub fn head(&self) -> (r: BlockRange)
        requires
            self.in_flight@.len() > 0,
        ensures
            r == self.in_flight@[0],
    {
        self.in_flight[0]
    }

    /// Plans and admits the next sub-query: the `batch_size` blocks from
    /// `next_launch`, clipped to the stream's upper bound.
    pub fn launch(&mut self) -> (r: BlockRange)
        requires
            old(self).wf(),
            old(self).spec_can_launch(),
        ensures
            final(self).wf(),
            r.from == old(self).next_launch,
            r.to == (if old(self).hi - old(self).next_launch < old(self).batch_size {
                old(self).hi
            } else {
                (old(self).next_launch + old(self).batch_size) as u64
            }),
            r.from < r.to <= old(self).hi,
            final(self).in_flight@ == old(self).in_flight@.push(r),
            final(self).next_launch == r.to,
            final(self).delivered == old(self).delivered,
            final(self).start == old(self).start,
            final(self).hi == old(self).hi,
            final(self).batch_size == old(self).batch_size,
            final(self).concurrency == old(self).concurrency,
            final(self).failed == old(self).failed,
            final(self).history == old(self).history,
    {
        let from = self.next_launch;
        let to = if self.hi - self.next_launch < self.batch_size {
            self.hi
        } else {
            self.next_launch + self.batch_size
        };
        let r = BlockRange { from, to };
        self.in_flight.push(r);
        self.next_launch = to;
        r
    }

    /// Delivers the result of the oldest in-flight sub-query, whose
    /// response reported `next_block`.
    ///
    /// A response is accepted when `next_block` lies within the head's
    /// range.  On acceptance the resume point becomes `next_block`; a
    /// fully covered head leaves the FIFO, while a truncated one is
    /// replaced by its uncovered tail `[next_block, to)`, which is
    /// delivered next.  An out-of-range report is rejected and changes
    /// nothing.
    pub fn complete_head(&mut self, next_block: u64) -> (accepted: bool)
        requires
            old(self).wf(),
            old(self).in_flight@.len() > 0,
        ensures
            final(self).wf(),
            accepted == (old(self).in_flight@[0].from <= next_block <= old(self).in_flight@[0].to),
            !accepted ==> *final(self) == *old(self),
            accepted ==> final(self).delivered == next_block,
            accepted ==> final(self).delivered >= old(self).delivered,
            accepted ==> (next_block == old(self).in_flight@[0].to ==> final(self).in_flight@
                =~= old(self).in_flight@.subrange(1, old(self).in_flight@.len() as int)),
            accepted ==> (next_block < old(self).in_flight@[0].to ==> final(self).in_flight@
                =~= old(self).in_flight@.update(
                0,
                BlockRange { from: next_block, to: old(self).in_flight@[0].to },
            )),
            final(self).next_launch == old(self).next_launch,
            final(self).start == old(self).start,
            final(self).hi == old(self).hi,
            final(self).batch_size == old(self).batch_size,
            final(self).concurrency == old(self).concurrency,
            final(self).failed == old(self).failed,
            accepted ==> final(self).history@ == old(self).history@.push(next_block),
    {
        let head = self.in_flight[0];
        if next_block < head.from || next_block > head.to {
            return false;
        }
        if next_block == head.to {
            self.in_flight.remove(0);
        } else {
            self.in_flight.remove(0);
            self.in_flight.insert(0, BlockRange { from: next_block, to: head.to });
        }
        self.delivered = next_block;
        self.history = Ghost(self.history@.push(next_block));
        proof {
            let pre = old(self).in_flight@;
            let post = self.in_flight@;
            if pre.len() > 1 {
                lemma_range_chain(pre, 0, (pre.len() - 1) as int);
            }
            assert(pre[0].to <= old(self).next_launch);
            if next_block == head.to {
                assert(post =~= pre.subrange(1, pre.len() as int));
                assert forall|i: int| 0 <= i < post.len() implies post[i].from < post[i].to by {
                    assert(post[i] == pre[i + 1]);
                }
                assert forall|i: int| 0 <= i < post.len() - 1 implies post[i].to == post[i
                    + 1].from by {
                    assert(post[i] == pre[i + 1]);
                    assert(post[i + 1] == pre[i + 2]);
                }
                if post.len() > 0 {
                    assert(post.last() == pre.last());
                    assert(post[0] == pre[1]);
                }
            } else {
                let repl = BlockRange { from: next_block, to: head.to };
                assert(post =~= pre.update(0, repl));
                assert forall|i: int| 0 <= i < post.len() implies post[i].from < post[i].to by {
                    if i > 0 {
                        assert(post[i] == pre[i]);
                    }
                }
                assert forall|i: int| 0 <= i < post.len() - 1 implies post[i].to == post[i
                    + 1].from by {
                    assert(post[i + 1] == pre[i + 1]);
                    if i > 0 {
                        assert(post[i] == pre[i]);
                    }
                }
                assert(post.last().to == pre.last().to);
            }
        }
        true
    }

    /// Whether the stream has finished successfully: nothing in flight,
    /// nothing left to plan, and no failure recorded.
    pub open spec fn spec_done(&self) -> bool {
        &&& !self.failed
        &&& self.in_flight@.len() == 0
        &&& self.next_launch >= self.hi
    }

    /// See [`Self::spec_done`].
    pub fn is_done(&self) -> (r: bool)
        ensures
            r == self.spec_done(),
    {
        !self.failed && self.in_flight.len() == 0 && self.next_launch >= self.hi
    }

    /// Aborts the stream after a sub-query ultimately failed: remaining
    /// in-flight work is discarded and nothing further is admitted.
    pub fn fail(&mut self)
        requires
            old(self).wf(),
        ensures
            final(self).wf(),
            final(self).failed,
            final(self).in_flight@.len() == 0,
            final(self).delivered == old(self).delivered,
            final(self).next_launch == old(self).delivered,
            final(self).start == old(self).start,
            final(self).hi == old(self).hi,
            final(self).batch_size == old(self).batch_size,
            final(self).concurrency == old(self).concurrency,
            final(self).history == old(self).history,
    {
        self.failed = true;
        self.in_flight = Vec::new();
        self.next_launch = self.delivered;
    }
}

/// In a chain of pairwise contiguous, nonempty ranges, an earlier range
/// ends no later than a later one begins.
proof fn lemma_range_chain(r: Seq<BlockRange>, i: int, j: int)
    requires
        forall|k: int| 0 <= k < r.len() ==> r[k].from < r[k].to,
        forall|k: int| 0 <= k < r.len() - 1 ==> r[k].to == r[k + 1].from,
        0 <= i < j < r.len(),
    ensures
        r[i].to <= r[j].from,
    decreases j - i,
{
    if j > i + 1 {
        lemma_range_chain(r, i, j - 1);
    }
}

/// Law: at no instant are more than `concurrency` sub-queries in flight.
pub proof fn lemma_concurrency_bound(s: StreamCoordinator)
    requires
        s.wf(),
    ensures
        s.in_flight@.len() <= s.concurrency,
{
}

/// Law: the in-flight FIFO is ordered by block range — an earlier
/// submission covers strictly earlier blocks — so completing heads in
/// FIFO order delivers results in submission order, whatever order the
/// underlying calls finish in.
pub proof fn lemma_submission_order(s: StreamCoordinator)
    requires
        s.wf(),
    ensures
        forall|i: int, j: int|
            0 <= i < j < s.in_flight@.len() ==> s.in_flight@[i].to <= s.in_flight@[j].from,
{
    assert forall|i: int, j: int|
        0 <= i < j < s.in_flight@.len() implies s.in_flight@[i].to <= s.in_flight@[j].from by {
        lemma_range_chain(s.in_flight@, i, j);
    }
}

/// Law: the first sub-query of a stream starts at the query's
/// `from_block`: while nothing has been delivered and nothing is in
/// flight, the next launch begins at `start`.
pub proof fn lemma_first_launch_at_start(s: StreamCoordinator)
    requires
        s.wf(),
        s.in_flight@.len() == 0,
        s.delivered == s.start,
    ensures
        s.next_launch == s.start,
{
}

/// Law: a stream that finishes successfully and had blocks to cover has
/// delivered exactly up to its upper bound — the query's `to_block`, or
/// the archive height sampled at stream start.
pub proof fn lemma_terminal_delivery(s: StreamCoordinator)
    requires
        s.wf(),
        s.spec_done(),
        s.start < s.hi,
    ensures
        s.delivered == s.hi,
{
}

/// Law: over a successfully finished stream that had blocks to cover,
/// the delivered `next_block` values form a non-decreasing sequence
/// whose entries stay within `[start, hi]` and whose last entry is
/// exactly the stream's upper bound.
pub proof fn lemma_stream_trace(s: StreamCoordinator)
    requires
        s.wf(),
        s.spec_done(),
        s.start < s.hi,
    ensures
        s.history@.len() > 0,
        s.history@.last() == s.hi,
        forall|i: int, j: int| 0 <= i <= j < s.history@.len() ==> s.history@[i] <= s.history@[j],
        forall|i: int| 0 <= i < s.history@.len() ==> s.start <= #[trigger] s.history@[i] <= s.hi,
{
    lemma_terminal_delivery(s);
    if s.history@.len() == 0 {
        // An empty delivery trace leaves the resume point at `start`,
        // below `hi`, contradicting a finished stream.
        assert(s.delivered == s.start);
        assert(false);
    }
}

} // verus!
