//! EVM data objects, as the archive returns them after row decoding.
//!
//! The field layout follows the ethereum RPC specification.  RPC
//! quantities are kept as big-endian byte strings (`Quantity`) because the
//! wire format does not bound them; block and transaction indexes that the
//! client itself reasons about are plain integers.

use vstd::prelude::*;

verus! {

/// A byte string of fixed width `N`, such as a hash or an address.
#[derive(Debug, Clone, PartialEq, Eq)]
pub struct FixedSizeData<const N: usize> {
    pub bytes: [u8; N],
}

/// An unbounded byte string, such as calldata or an extra-data field.
#[derive(Debug, Clone, PartialEq, Eq, Default)]
pub struct Data {
    pub bytes: Vec<u8>,
}

/// An RPC quantity: a big-endian byte string without a fixed width.
#[derive(Debug, Clone, PartialEq, Eq, Default)]
pub struct Quantity {
    pub bytes: Vec<u8>,
}

/// EVM hash: 32 bytes of data.
pub type Hash = FixedSizeData<32>;

/// EVM log argument: 32 bytes of data.
pub type LogArgument = FixedSizeData<32>;

/// EVM address: 20 bytes of data.
pub type Address = FixedSizeData<20>;

/// EVM nonce: 8 bytes of data.
pub type Nonce = FixedSizeData<8>;

/// A block's log bloom filter.
pub type BloomFilter = Data;

/// A block number.
pub type BlockNumber = u64;

/// A transaction's index inside its block.
pub type TransactionIndex = u64;

/// A log's index inside its block.
pub type LogIndex = u64;

/// EVM block header object.
///
/// See the ethereum RPC specification for the meaning of the fields.
#[derive(Debug, Clone, PartialEq, Eq)]
pub struct BlockHeader {
    pub number: BlockNumber,
    pub hash: Hash,
    pub parent_hash: Hash,
    pub nonce: Option<Nonce>,
    pub sha3_uncles: Hash,
    pub logs_bloom: BloomFilter,
    pub transactions_root: Hash,
    pub state_root: Hash,
    pub receipts_root: Hash,
    pub miner: Address,
    pub difficulty: Option<Quantity>,
    pub total_difficulty: Option<Quantity>,
    pub extra_data: Data,
    pub size: Quantity,
    pub gas_limit: Quantity,
    pub gas_used: Quantity,
    pub timestamp: Quantity,
    pub uncles: Option<Vec<Hash>>,
    pub base_fee_per_gas: Option<Quantity>,
    pub blob_gas_used: Option<Quantity>,
    pub excess_blob_gas: Option<Quantity>,
    pub parent_beacon_block_root: Option<Hash>,
    pub withdrawals_root: Option<Hash>,
    pub withdrawals: Option<Vec<Withdrawal>>,
    pub l1_block_number: Option<BlockNumber>,
    pub send_count: Option<Quantity>,
    pub send_root: Option<Hash>,
    pub mix_hash: Option<Hash>,
}

/// EVM withdrawal object.
///
/// See the ethereum RPC specification for the meaning of the fields.
#[derive(Debug, Clone, PartialEq, Eq, Default)]
pub struct Withdrawal {
    pub index: Option<Quantity>,
    pub validator_index: Option<Quantity>,
    pub address: Option<Address>,
    pub amount: Option<Quantity>,
}

/// EVM block object: a header and either full transaction objects or
/// only their hashes, depending on the instantiation of `Tx`.
#[derive(Debug, Clone, PartialEq, Eq)]
pub struct Block<Tx> {
    pub header: BlockHeader,
    pub transactions: Vec<Tx>,
}

/// EVM transaction object.
///
/// See the ethereum RPC specification for the meaning of the fields.
#[derive(Debug, Clone, PartialEq, Eq)]
pub struct Transaction {
    pub block_hash: Hash,
    pub block_number: BlockNumber,
    pub from: Option<Address>,
    pub gas: Quantity,
    pub gas_price: Option<Quantity>,
    pub hash: Hash,
    pub input: Data,
    pub nonce: Quantity,
    pub to: Option<Address>,
    pub transaction_index: TransactionIndex,
    pub value: Quantity,
    pub v: Option<Quantity>,
    pub r: Option<Quantity>,
    pub s: Option<Quantity>,
    pub y_parity: Option<Quantity>,
    pub max_priority_fee_per_gas: Option<Quantity>,
    pub max_fee_per_gas: Option<Quantity>,
    pub chain_id: Option<Quantity>,
    pub access_list: Option<Vec<AccessList>>,
    pub max_fee_per_blob_gas: Option<Quantity>,
    pub blob_versioned_hashes: Option<Vec<Hash>>,
}

/// EVM access list entry.
///
/// See the ethereum RPC specification for the meaning of the fields.
#[derive(Debug, Clone, PartialEq, Eq, Default)]
pub struct AccessList {
    pub address: Option<Address>,
    pub storage_keys: Option<Vec<Hash>>,
}

/// Execution status carried by a transaction receipt.
#[derive(Debug, Clone, Copy, PartialEq, Eq, Structural)]
pub enum TransactionStatus {
    Success,
    Failure,
}

/// EVM transaction type tag (legacy, access-list, dynamic-fee, ...).
#[derive(Debug, Clone, Copy, PartialEq, Eq, Structural)]
pub struct TransactionType {
    pub value: u8,
}

/// EVM log object.
///
/// See the ethereum RPC specification for the meaning of the fields.
#[derive(Debug, Clone, PartialEq, Eq)]
pub struct Log {
    pub removed: Option<bool>,
    pub log_index: LogIndex,
    pub transaction_index: TransactionIndex,
    pub transaction_hash: Hash,
    pub block_hash: Hash,
    pub block_number: BlockNumber,
    pub address: Address,
    pub data: Data,
    pub topics: Vec<LogArgument>,
}

impl Log {
    /// An EVM log carries at most four topics.
    pub open spec fn wf(&self) -> bool {
        self.topics@.len() <= 4
    }
}

/// EVM transaction receipt object.
///
/// See the ethereum RPC specification for the meaning of the fields.
#[derive(Debug, Clone, PartialEq, Eq)]
pub struct TransactionReceipt {
    pub transaction_hash: Hash,
    pub transaction_index: TransactionIndex,
    pub block_hash: Hash,
    pub block_number: BlockNumber,
    pub from: Address,
    pub to: Option<Address>,
    pub cumulative_gas_used: Quantity,
    pub effective_gas_price: Quantity,
    pub gas_used: Quantity,
    pub contract_address: Option<Address>,
    pub logs: Vec<Log>,
    pub logs_bloom: BloomFilter,
    pub kind: Option<TransactionType>,
    pub root: Option<Hash>,
    pub status: Option<TransactionStatus>,
    pub l1_fee: Option<Quantity>,
    pub l1_gas_price: Option<Quantity>,
    pub l1_gas_used: Option<Quantity>,
    /// A decimal fraction printed as a string, e.g. "0.69".
    pub l1_fee_scalar: Option<String>,
    pub gas_used_for_l1: Option<Quantity>,
}

/// EVM trace object (parity style, as returned by a trace_block request).
///
/// See the trace_block documentation for the meaning of the fields.
#[derive(Debug, Clone, PartialEq, Eq)]
pub struct Trace {
    pub action: TraceAction,
    pub block_hash: Hash,
    pub block_number: u64,
    pub result: Option<TraceResult>,
    pub subtraces: Option<u64>,
    pub trace_address: Option<Vec<u64>>,
    pub transaction_hash: Option<Hash>,
    pub transaction_position: Option<u64>,
    pub kind: Option<String>,
    pub error: Option<String>,
}

/// Action object inside a trace.
///
/// See the trace_block documentation for the meaning of the fields.
#[derive(Debug, Clone, PartialEq, Eq, Default)]
pub struct TraceAction {
    pub from: Option<Address>,
    pub to: Option<Address>,
    pub call_type: Option<String>,
    pub gas: Option<Quantity>,
    pub input: Option<Data>,
    pub init: Option<Data>,
    pub value: Option<Quantity>,
    pub author: Option<Address>,
    pub reward_type: Option<String>,
}

/// Result object inside a trace.
///
/// See the trace_block documentation for the meaning of the fields.
#[derive(Debug, Clone, PartialEq, Eq, Default)]
pub struct TraceResult {
    pub address: Option<Address>,
    pub code: Option<Data>,
    pub gas_used: Option<Quantity>,
    pub output: Option<Data>,
}

} // verus!
