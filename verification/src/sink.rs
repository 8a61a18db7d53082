//! Row-count bookkeeping of the parquet sink.
//!
//! The sink consumes the columnar stream and writes one file per kind
//! (`blocks.parquet`, `transactions.parquet`, `logs.parquet`,
//! `traces.parquet`).  When a writer's accumulated row count crosses the
//! rollover threshold, the sink opens a follow-up file for that kind,
//! numbered from a single file sequence shared by all kinds.  The
//! decisions are made here; the writers and the file system live with
//! the sink's I/O layer.

use vstd::prelude::*;

verus! {

/// The per-kind column files the sink writes.
#[derive(Debug, Clone, Copy, PartialEq, Eq, Structural)]
pub enum BatchKind {
    Blocks,
    Transactions,
    Logs,
    Traces,
}

impl BatchKind {
    /// The name of the first file written for this kind.
    pub fn file_name(&self) -> (r: &'static str)
        ensures
            self is Blocks ==> r@ == "blocks.parquet"@,
            self is Transactions ==> r@ == "transactions.parquet"@,
            self is Logs ==> r@ == "logs.parquet"@,
            self is Traces ==> r@ == "traces.parquet"@,
    {
        match self {
            BatchKind::Blocks => "blocks.parquet",
            BatchKind::Transactions => "transactions.parquet",
            BatchKind::Logs => "logs.parquet",
            BatchKind::Traces => "traces.parquet",
        }
    }
}

/// The accumulated row count of one kind's current file.
pub open spec fn rows_of(s: ParquetSinkState, kind: BatchKind) -> u64 {
    match kind {
        BatchKind::Blocks => s.rows_blocks,
        BatchKind::Transactions => s.rows_transactions,
        BatchKind::Logs => s.rows_logs,
        BatchKind::Traces => s.rows_traces,
    }
}

/// Rollover bookkeeping of the parquet sink.
#[derive(Debug, Clone)]
pub struct ParquetSinkState {
    /// Row count at which a kind's current file is rolled over.
    pub rollover_rows: u64,
    /// Rows written to the current blocks file.
    pub rows_blocks: u64,
    /// Rows written to the current transactions file.
    pub rows_transactions: u64,
    /// Rows written to the current logs file.
    pub rows_logs: u64,
    /// Rows written to the current traces file.
    pub rows_traces: u64,
    /// Next number in the file sequence shared by all kinds.
    pub next_file_seq: u64,
}

impl ParquetSinkState {
    /// The sink invariant: every current file is still below the
    /// rollover threshold.
    pub open spec fn wf(&self) -> bool {
        &&& self.rollover_rows >= 1
        &&& self.rows_blocks < self.rollover_rows
        &&& self.rows_transactions < self.rollover_rows
        &&& self.rows_logs < self.rollover_rows
        &&& self.rows_traces < self.rollover_rows
    }

    /// A fresh sink: all counters at zero, the file sequence starting
    /// at one (the unnumbered first files are already open).
    pub fn new(rollover_rows: u64) -> (r: ParquetSinkState)
        requires
            rollover_rows >= 1,
        ensures
            r.wf(),
            r.rollover_rows == rollover_rows,
            rows_of(r, BatchKind::Blocks) == 0,
            rows_of(r, BatchKind::Transactions) == 0,
            rows_of(r, BatchKind::Logs) == 0,
            rows_of(r, BatchKind::Traces) == 0,
            r.next_file_seq == 1,
    {
        ParquetSinkState {
            rollover_rows,
            rows_blocks: 0,
            rows_transactions: 0,
            rows_logs: 0,
            rows_traces: 0,
            next_file_seq: 1,
        }
    }

    /// Records `rows` appended to `kind`'s current file.  Returns
    /// `Some(n)` when the file crossed the threshold and the kind's next
    /// file must be opened under sequence number `n`; the numbers handed
    /// out are strictly increasing across the whole sink.
    pub fn record(&mut self, kind: BatchKind, rows: u64) -> (r: Option<u64>)
        requires
            old(self).wf(),
            old(self).next_file_seq < u64::MAX,
        ensures
            final(self).wf(),
            r is Some <==> rows_of(*old(self), kind) + rows >= old(self).rollover_rows,
            r matches Some(n) ==> n == old(self).next_file_seq,
            r is Some ==> final(self).next_file_seq == old(self).next_file_seq + 1,
            r is Some ==> rows_of(*final(self), kind) == 0,
            r is None ==> final(self).next_file_seq == old(self).next_file_seq,
            r is None ==> rows_of(*final(self), kind) == rows_of(*old(self), kind) + rows,
            final(self).rollover_rows == old(self).rollover_rows,
            forall|k: BatchKind| k != kind ==> rows_of(*final(self), k) == rows_of(
                *old(self),
                k,
            ),
    {
        let current = match kind {
            BatchKind::Blocks => self.rows_blocks,
            BatchKind::Transactions => self.rows_transactions,
            BatchKind::Logs => self.rows_logs,
            BatchKind::Traces => self.rows_traces,
        };
        let crossed = rows >= self.rollover_rows - current;
        let updated: u64 = if crossed {
            0
        } else {
            current + rows
        };
        match kind {
            BatchKind::Blocks => {
                self.rows_blocks = updated;
            },
            BatchKind::Transactions => {
                self.rows_transactions = updated;
            },
            BatchKind::Logs => {
                self.rows_logs = updated;
            },
            BatchKind::Traces => {
                self.rows_traces = updated;
            },
        }
        if crossed {
            let n = self.next_file_seq;
            self.next_file_seq = self.next_file_seq + 1;
            Some(n)
        } else {
            None
        }
    }
}

} // verus!
