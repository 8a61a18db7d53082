use hypersync_client::collect::{ArrowCollector, EventCollector, QueryCollector};
use hypersync_client::sink::{BatchKind, ParquetSinkState};
use hypersync_client::types::{ArrowResponse, ArrowResponseData, EventResponse, QueryResponse, ResponseData};

fn arrow_response(next_block: u64, time: u64, blocks: Vec<u32>, logs: Vec<u32>) -> ArrowResponse<u32> {
    ArrowResponse {
        archive_height: Some(next_block + 5),
        next_block,
        total_execution_time: time,
        data: ArrowResponseData {
            blocks,
            transactions: Vec::new(),
            logs,
            traces: Vec::new(),
            decoded_logs: Vec::new(),
        },
        rollback_guard: None,
    }
}

#[test]
fn arrow_collector_concatenates_in_arrival_order() {
    let mut c: ArrowCollector<u32> = ArrowCollector::new();
    c.push(arrow_response(400, 10, vec![1, 2], vec![7]));
    c.push(arrow_response(1000, 32, vec![3], vec![8, 9]));
    let out = c.finish();
    assert_eq!(out.data.blocks, vec![1, 2, 3]);
    assert_eq!(out.data.logs, vec![7, 8, 9]);
    assert!(out.data.transactions.is_empty());
    assert_eq!(out.next_block, 1000);
    assert_eq!(out.archive_height, Some(1005));
    assert_eq!(out.total_execution_time, 42);
    assert!(out.rollback_guard.is_none());
}

#[test]
fn arrow_collector_time_sum_saturates() {
    let mut c: ArrowCollector<u32> = ArrowCollector::new();
    c.push(arrow_response(1, u64::MAX - 1, Vec::new(), Vec::new()));
    c.push(arrow_response(2, 10, Vec::new(), Vec::new()));
    assert_eq!(c.total_execution_time, u64::MAX);
}

#[test]
fn empty_stream_collects_to_zero_next_block() {
    let c: ArrowCollector<u32> = ArrowCollector::new();
    let out = c.finish();
    assert_eq!(out.next_block, 0);
    assert_eq!(out.archive_height, None);
    assert!(out.data.blocks.is_empty());
}

#[test]
fn query_collector_concatenates_per_kind() {
    let mut c: QueryCollector<&'static str> = QueryCollector::new();
    c.push(QueryResponse {
        archive_height: Some(10),
        next_block: 5,
        total_execution_time: 1,
        data: ResponseData {
            blocks: vec!["b1"],
            transactions: vec!["t1"],
            logs: Vec::new(),
            traces: Vec::new(),
        },
        rollback_guard: None,
    });
    c.push(QueryResponse {
        archive_height: Some(11),
        next_block: 9,
        total_execution_time: 2,
        data: ResponseData {
            blocks: vec!["b2"],
            transactions: Vec::new(),
            logs: vec!["l1"],
            traces: Vec::new(),
        },
        rollback_guard: None,
    });
    let out = c.finish();
    assert_eq!(out.data.blocks, vec!["b1", "b2"]);
    assert_eq!(out.data.transactions, vec!["t1"]);
    assert_eq!(out.data.logs, vec!["l1"]);
    assert_eq!(out.next_block, 9);
    assert_eq!(out.archive_height, Some(11));
    assert_eq!(out.total_execution_time, 3);
}

#[test]
fn event_collector_keeps_one_list_per_response() {
    let mut c: EventCollector<u8> = EventCollector::new();
    c.push(EventResponse {
        archive_height: None,
        next_block: 3,
        total_execution_time: 1,
        data: vec![vec![1, 2]],
        rollback_guard: None,
    });
    c.push(EventResponse {
        archive_height: Some(8),
        next_block: 6,
        total_execution_time: 1,
        data: vec![vec![3]],
        rollback_guard: None,
    });
    let out = c.finish();
    assert_eq!(out.data, vec![vec![1, 2], vec![3]]);
    assert_eq!(out.next_block, 6);
    assert_eq!(out.archive_height, Some(8));
}

#[test]
fn sink_rolls_over_at_threshold_with_global_sequence() {
    let mut s = ParquetSinkState::new(100);
    assert_eq!(s.record(BatchKind::Blocks, 60), None);
    assert_eq!(s.record(BatchKind::Logs, 99), None);
    // Blocks crosses the threshold first and takes sequence number 1.
    assert_eq!(s.record(BatchKind::Blocks, 40), Some(1));
    assert_eq!(s.rows_blocks, 0);
    // Logs crosses next and takes the next number of the shared
    // sequence.
    assert_eq!(s.record(BatchKind::Logs, 1), Some(2));
    assert_eq!(s.next_file_seq, 3);
    // The other kinds were untouched.
    assert_eq!(s.rows_transactions, 0);
    assert_eq!(s.rows_traces, 0);
}

#[test]
fn sink_counts_below_threshold() {
    let mut s = ParquetSinkState::new(1000);
    assert_eq!(s.record(BatchKind::Traces, 400), None);
    assert_eq!(s.record(BatchKind::Traces, 400), None);
    assert_eq!(s.rows_traces, 800);
    assert_eq!(s.next_file_seq, 1);
}

#[test]
fn sink_file_names() {
    assert_eq!(BatchKind::Blocks.file_name(), "blocks.parquet");
    assert_eq!(BatchKind::Transactions.file_name(), "transactions.parquet");
    assert_eq!(BatchKind::Logs.file_name(), "logs.parquet");
    assert_eq!(BatchKind::Traces.file_name(), "traces.parquet");
}
