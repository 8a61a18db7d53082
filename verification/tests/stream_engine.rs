use hypersync_client::net_types::Query;
use hypersync_client::config::StreamConfig;
use hypersync_client::stream::StreamCoordinator;

#[test]
fn fixed_window_three_sub_queries() {
    // from_block=0, to_block=1000, batch_size=400: expect [0,400), [400,800), [800,1000).
    let mut c = StreamCoordinator::new(0, Some(1000), 0, 400, 10);
    let a = c.launch();
    assert_eq!((a.from, a.to), (0, 400));
    let b = c.launch();
    assert_eq!((b.from, b.to), (400, 800));
    let d = c.launch();
    assert_eq!((d.from, d.to), (800, 1000));
    assert!(!c.can_launch());
    assert_eq!(c.pending(), 3);

    assert!(c.complete_head(400));
    assert!(c.complete_head(800));
    assert!(c.complete_head(1000));
    assert!(c.is_done());
    assert_eq!(c.delivered, 1000);
}

#[test]
fn server_truncation_resumes_from_next_block() {
    // Request [0, 1000) in one batch; the server only covers [0, 250).
    let mut c = StreamCoordinator::new(0, Some(1000), 0, 1000, 10);
    let a = c.launch();
    assert_eq!((a.from, a.to), (0, 1000));
    assert!(!c.can_launch());

    assert!(c.complete_head(250));
    assert_eq!(c.delivered, 250);
    // The uncovered tail is the next (second) sub-query.
    assert_eq!(c.pending(), 1);
    let follow_up = c.head();
    assert_eq!((follow_up.from, follow_up.to), (250, 1000));
    assert!(!c.can_launch());

    assert!(c.complete_head(1000));
    assert!(c.is_done());
    assert_eq!(c.delivered, 1000);
}

#[test]
fn open_ended_query_clamps_to_height_at_start() {
    // from_block=100, to_block=None, archive height probed as 500.
    let mut c = StreamCoordinator::new(100, None, 500, 400, 10);
    assert_eq!(c.hi, 500);
    let a = c.launch();
    assert_eq!((a.from, a.to), (100, 500));
    assert!(!c.can_launch());
    assert!(c.complete_head(500));
    assert!(c.is_done());
    // The stream ends at the height sampled at start, whatever the
    // archive grew to afterwards.
    assert_eq!(c.delivered, 500);
}

#[test]
fn ordering_under_permuted_completion() {
    // concurrency=4, three sub-queries; the underlying calls finish in
    // reverse order, but only the head of the FIFO can be delivered.
    let mut c = StreamCoordinator::new(0, Some(300), 0, 100, 4);
    let a = c.launch();
    let b = c.launch();
    let d = c.launch();
    assert_eq!((a.from, b.from, d.from), (0, 100, 200));

    // Results for the later sub-queries are in hand first, but they are
    // not the head: reporting them against the head is rejected.
    assert!(!c.complete_head(d.to));
    assert!(!c.complete_head(b.to));
    assert_eq!(c.delivered, 0);

    // Delivery happens in submission order.
    assert!(c.complete_head(a.to));
    assert_eq!(c.delivered, 100);
    assert!(c.complete_head(b.to));
    assert_eq!(c.delivered, 200);
    assert!(c.complete_head(d.to));
    assert_eq!(c.delivered, 300);
    assert!(c.is_done());
}

#[test]
fn concurrency_bound_is_respected() {
    let mut c = StreamCoordinator::new(0, Some(10_000), 0, 100, 3);
    assert!(c.can_launch());
    c.launch();
    c.launch();
    c.launch();
    // All slots taken: nothing more is admitted until a delivery.
    assert!(!c.can_launch());
    assert_eq!(c.pending(), 3);
    assert!(c.complete_head(100));
    assert!(c.can_launch());
    assert_eq!(c.pending(), 2);
}

#[test]
fn next_block_monotone_and_first_from_is_query_from() {
    let mut c = StreamCoordinator::new(7, Some(1000), 0, 100, 2);
    let first = c.launch();
    assert_eq!(first.from, 7);
    let mut last = c.delivered;
    let mut delivered = Vec::new();
    loop {
        while c.can_launch() {
            c.launch();
        }
        if c.pending() == 0 {
            break;
        }
        let head = c.head();
        // The server covers the full range here.
        assert!(c.complete_head(head.to));
        assert!(c.delivered >= last);
        last = c.delivered;
        delivered.push(c.delivered);
    }
    assert!(c.is_done());
    assert_eq!(c.delivered, 1000);
    assert_eq!(delivered.last().copied(), Some(1000));
}

#[test]
fn out_of_range_report_changes_nothing() {
    let mut c = StreamCoordinator::new(100, Some(200), 0, 100, 1);
    c.launch();
    // Below the head's range.
    assert!(!c.complete_head(99));
    // Beyond the head's range.
    assert!(!c.complete_head(201));
    assert_eq!(c.pending(), 1);
    assert_eq!(c.delivered, 100);
}

#[test]
fn failure_aborts_stream() {
    let mut c = StreamCoordinator::new(0, Some(1000), 0, 100, 4);
    c.launch();
    c.launch();
    c.fail();
    assert_eq!(c.pending(), 0);
    assert!(!c.can_launch());
    assert!(!c.is_done());
}

#[test]
fn empty_range_is_done_immediately() {
    // An open-ended query starting above the sampled height covers
    // nothing.
    let mut c = StreamCoordinator::new(600, None, 500, 100, 4);
    assert!(!c.can_launch());
    assert!(c.is_done());
    assert_eq!(c.delivered, 600);
}

#[test]
fn start_applies_config_defaults() {
    let query = Query::new(5, Some(50));
    let config = StreamConfig::default();
    let c = StreamCoordinator::start(&query, &config, 0);
    assert_eq!(c.start, 5);
    assert_eq!(c.hi, 50);
    assert_eq!(c.batch_size, 1000);
    assert_eq!(c.concurrency, 10);

    let config = StreamConfig { concurrency: Some(0), batch_size: Some(0), ..StreamConfig::default() };
    let c = StreamCoordinator::start(&query, &config, 0);
    assert_eq!(c.batch_size, 1);
    assert_eq!(c.concurrency, 1);
}

#[test]
fn start_clamps_batch_into_bounds() {
    let query = Query::new(0, Some(100));
    let config = StreamConfig {
        batch_size: Some(50),
        min_batch_size: Some(100),
        ..StreamConfig::default()
    };
    let c = StreamCoordinator::start(&query, &config, 0);
    assert_eq!(c.batch_size, 100);

    let config = StreamConfig {
        batch_size: Some(5000),
        max_batch_size: Some(2000),
        ..StreamConfig::default()
    };
    let c = StreamCoordinator::start(&query, &config, 0);
    assert_eq!(c.batch_size, 2000);
}

#[test]
fn adaptive_batch_size_moves_within_bounds() {
    let query = Query::new(0, Some(100_000));
    let ceiling: u64 = 1 << 20;
    let config = StreamConfig {
        batch_size: Some(1000),
        min_batch_size: Some(200),
        max_batch_size: Some(3000),
        response_size_ceiling: Some(ceiling),
        ..StreamConfig::default()
    };
    let mut c = StreamCoordinator::start(&query, &config, 0);
    assert_eq!(c.batch_size, 1000);

    // Responses far below the target: the span doubles, up to the
    // configured maximum.
    c.adapt_batch_size(1000, ceiling);
    assert_eq!(c.batch_size, 2000);
    c.adapt_batch_size(1000, ceiling);
    assert_eq!(c.batch_size, 3000);

    // Oversized responses: the span halves, down to the configured
    // minimum.
    c.adapt_batch_size(ceiling + 1, ceiling);
    assert_eq!(c.batch_size, 1500);
    c.adapt_batch_size(ceiling + 1, ceiling);
    assert_eq!(c.batch_size, 750);
    c.adapt_batch_size(ceiling + 1, ceiling);
    assert_eq!(c.batch_size, 375);
    c.adapt_batch_size(ceiling + 1, ceiling);
    assert_eq!(c.batch_size, 200);

    // A response in the target band leaves the span alone.
    c.adapt_batch_size(600_000, ceiling);
    assert_eq!(c.batch_size, 200);
}
