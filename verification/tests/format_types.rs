use hypersync_client::format::{
    AccessList, Block, BlockHeader, Data, FixedSizeData, Log, Quantity, Trace, TraceAction,
    TraceResult, Transaction, TransactionReceipt, TransactionStatus, TransactionType, Withdrawal,
};

fn hash(fill: u8) -> hypersync_client::format::Hash {
    FixedSizeData { bytes: [fill; 32] }
}

fn address(fill: u8) -> hypersync_client::format::Address {
    FixedSizeData { bytes: [fill; 20] }
}

fn quantity(bytes: &[u8]) -> Quantity {
    Quantity { bytes: bytes.to_vec() }
}

fn header(number: u64) -> BlockHeader {
    BlockHeader {
        number,
        hash: hash(1),
        parent_hash: hash(2),
        nonce: Some(FixedSizeData { bytes: [0; 8] }),
        sha3_uncles: hash(3),
        logs_bloom: Data { bytes: vec![0; 256] },
        transactions_root: hash(4),
        state_root: hash(5),
        receipts_root: hash(6),
        miner: address(7),
        difficulty: None,
        total_difficulty: None,
        extra_data: Data { bytes: Vec::new() },
        size: quantity(&[1]),
        gas_limit: quantity(&[2]),
        gas_used: quantity(&[3]),
        timestamp: quantity(&[4]),
        uncles: None,
        base_fee_per_gas: None,
        blob_gas_used: None,
        excess_blob_gas: None,
        parent_beacon_block_root: None,
        withdrawals_root: None,
        withdrawals: Some(vec![Withdrawal::default()]),
        l1_block_number: None,
        send_count: None,
        send_root: None,
        mix_hash: None,
    }
}

#[test]
fn block_holds_header_and_transactions() {
    let tx = Transaction {
        block_hash: hash(1),
        block_number: 42,
        from: Some(address(8)),
        gas: quantity(&[0x52, 0x08]),
        gas_price: None,
        hash: hash(9),
        input: Data { bytes: vec![0xde, 0xad] },
        nonce: quantity(&[0]),
        to: Some(address(10)),
        transaction_index: 3,
        value: quantity(&[1, 0]),
        v: None,
        r: None,
        s: None,
        y_parity: None,
        max_priority_fee_per_gas: None,
        max_fee_per_gas: None,
        chain_id: Some(quantity(&[1])),
        access_list: Some(vec![AccessList {
            address: Some(address(11)),
            storage_keys: Some(vec![hash(12)]),
        }]),
        max_fee_per_blob_gas: None,
        blob_versioned_hashes: None,
    };
    let block = Block { header: header(42), transactions: vec![tx.clone()] };
    assert_eq!(block.header.number, 42);
    assert_eq!(block.transactions.len(), 1);
    assert_eq!(block.transactions[0], tx);
    assert_eq!(block.transactions[0].transaction_index, 3);

    // Hashes compare by content.
    assert_eq!(block.header.hash, hash(1));
    assert_ne!(block.header.hash, hash(2));
}

#[test]
fn receipt_holds_logs_and_status() {
    let log = Log {
        removed: Some(false),
        log_index: 0,
        transaction_index: 3,
        transaction_hash: hash(9),
        block_hash: hash(1),
        block_number: 42,
        address: address(11),
        data: Data { bytes: vec![0xff] },
        topics: vec![hash(20), hash(21)],
    };
    let receipt = TransactionReceipt {
        transaction_hash: hash(9),
        transaction_index: 3,
        block_hash: hash(1),
        block_number: 42,
        from: address(8),
        to: Some(address(10)),
        cumulative_gas_used: quantity(&[9]),
        effective_gas_price: quantity(&[1]),
        gas_used: quantity(&[2]),
        contract_address: None,
        logs: vec![log],
        logs_bloom: Data { bytes: vec![0; 256] },
        kind: Some(TransactionType { value: 2 }),
        root: None,
        status: Some(TransactionStatus::Success),
        l1_fee: None,
        l1_gas_price: None,
        l1_gas_used: None,
        l1_fee_scalar: Some("0.69".to_string()),
        gas_used_for_l1: None,
    };
    assert_eq!(receipt.logs.len(), 1);
    assert_eq!(receipt.logs[0].topics.len(), 2);
    assert_eq!(receipt.status, Some(TransactionStatus::Success));
    assert_ne!(receipt.kind, Some(TransactionType { value: 0 }));
}

#[test]
fn trace_objects_compose() {
    let trace = Trace {
        action: TraceAction {
            from: Some(address(1)),
            to: Some(address(2)),
            call_type: Some("call".to_string()),
            gas: Some(quantity(&[5])),
            input: None,
            init: None,
            value: None,
            author: None,
            reward_type: None,
        },
        block_hash: hash(3),
        block_number: 7,
        result: Some(TraceResult {
            address: None,
            code: None,
            gas_used: Some(quantity(&[4])),
            output: Some(Data { bytes: vec![1] }),
        }),
        subtraces: Some(0),
        trace_address: Some(vec![0, 1]),
        transaction_hash: Some(hash(8)),
        transaction_position: Some(2),
        kind: Some("call".to_string()),
        error: None,
    };
    assert_eq!(trace.block_number, 7);
    assert_eq!(trace.action.call_type.as_deref(), Some("call"));
    assert_eq!(trace.result.as_ref().unwrap().output.as_ref().unwrap().bytes, vec![1]);
}
