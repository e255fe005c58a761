//! The data that flows through the batching pipeline and the errors of its
//! stages.

use vstd::prelude::*;
use crate::text::{decimal, join2, join4, u64_decimal, usize_decimal};

verus! {

/// Raw transaction bytes.
pub type Bytes = Vec<u8>;

/// An L2 block as the pipeline sees it: a timestamp and raw transactions.
#[derive(Clone, Debug)]
pub struct L2BlockData {
    /// Block timestamp.
    pub timestamp: u64,
    /// Raw transactions of the block.
    pub transactions: Vec<Bytes>,
}

/// A compressed batch, ready for submission or freshly read back from L1.
#[derive(Clone, Debug, PartialEq, Eq)]
pub struct CompressedBatch {
    /// Batch sequence number.
    pub batch_number: u64,
    /// Compressed batch data.
    pub data: Vec<u8>,
    /// Number of L2 blocks in the batch.
    pub block_count: u64,
    /// First L2 block number in the batch.
    pub first_block: u64,
    /// Last L2 block number in the batch.
    pub last_block: u64,
}

/// Receipt of a submitted batch.
#[derive(Clone, Debug, PartialEq, Eq)]
pub struct SubmissionReceipt {
    /// Batch sequence number.
    pub batch_number: u64,
    /// Hash of the submitting transaction.
    pub tx_hash: [u8; 32],
    /// L1 block that included the transaction.
    pub l1_block: u64,
    /// Versioned hash of the blob, for blob submissions.
    pub blob_hash: Option<[u8; 32]>,
}

/// Codec errors.
#[derive(Clone, Debug)]
pub enum CodecError {
    /// Invalid version.
    InvalidVersion(u8),
    /// Truncated data at offset.
    Truncated(usize),
    /// Invalid block count.
    InvalidBlockCount,
}

impl CodecError {
    /// The error's message.
    pub open spec fn message(&self) -> Seq<char> {
        match self {
            CodecError::InvalidVersion(v) => "Invalid version: "@ + decimal(*v as nat),
            CodecError::Truncated(o) => "Truncated data at offset "@ + decimal(*o as nat),
            CodecError::InvalidBlockCount => "Invalid block count"@,
        }
    }

    /// Renders the error's message.
    pub fn to_string(&self) -> (s: String)
        ensures
            s@ == self.message(),
    {
        match self {
            CodecError::InvalidVersion(v) => join2("Invalid version: ", u64_decimal(*v as u64).as_str()),
            CodecError::Truncated(o) => join2("Truncated data at offset ", usize_decimal(*o).as_str()),
            CodecError::InvalidBlockCount => String::from_str("Invalid block count"),
        }
    }
}

/// Compressor configuration.
#[derive(Clone, Debug)]
pub struct CompressionConfig {
    /// Compression level (1-11 for Brotli).
    pub level: u32,
    /// Log2 of window size.
    pub window_size: u32,
}

impl Default for CompressionConfig {
    /// Maximum compression (level 11) with a 4 MB window (2^22).
    fn default() -> (c: CompressionConfig)
        ensures
            c.level == 11,
            c.window_size == 22,
    {
        CompressionConfig { level: 11, window_size: 22 }
    }
}

/// Compression errors.
#[derive(Clone, Debug)]
pub enum CompressionError {
    /// Compression failed.
    Failed(String),
    /// Decompression failed due to corrupted data.
    Corrupted,
    /// Input too large.
    TooLarge {
        /// Actual size.
        size: usize,
        /// Maximum allowed size.
        max: usize,
    },
}

impl CompressionError {
    /// The error's message.
    pub open spec fn message(&self) -> Seq<char> {
        match self {
            CompressionError::Failed(m) => "Compression failed: "@ + m@,
            CompressionError::Corrupted => "Decompression failed: corrupted data"@,
            CompressionError::TooLarge { size, max } => "Input too large: "@ + decimal(*size as nat)
                + " > "@ + decimal(*max as nat),
        }
    }

    /// Renders the error's message.
    pub fn to_string(&self) -> (s: String)
        ensures
            s@ == self.message(),
    {
        match self {
            CompressionError::Failed(m) => join2("Compression failed: ", m.as_str()),
            CompressionError::Corrupted => String::from_str("Decompression failed: corrupted data"),
            CompressionError::TooLarge { size, max } => join4(
                "Input too large: ",
                usize_decimal(*size).as_str(),
                " > ",
                usize_decimal(*max).as_str(),
            ),
        }
    }
}

/// Errors of a batch sink.
#[derive(Clone, Debug)]
pub enum SinkError {
    /// L1 connection failed.
    Connection(String),
    /// Transaction failed.
    TxFailed(String),
    /// Insufficient funds.
    InsufficientFunds,
    /// Blob gas too expensive.
    BlobGasTooExpensive {
        /// Current blob gas price.
        current: u64,
        /// Maximum allowed blob gas price.
        max: u64,
    },
    /// Timeout waiting for confirmation.
    Timeout,
}

impl SinkError {
    /// The error's message.
    pub open spec fn message(&self) -> Seq<char> {
        match self {
            SinkError::Connection(m) => "L1 connection failed: "@ + m@,
            SinkError::TxFailed(m) => "Transaction failed: "@ + m@,
            SinkError::InsufficientFunds => "Insufficient funds"@,
            SinkError::BlobGasTooExpensive { current, max } => "Blob gas too expensive: "@
                + decimal(*current as nat) + " > "@ + decimal(*max as nat),
            SinkError::Timeout => "Timeout waiting for confirmation"@,
        }
    }

    /// Renders the error's message.
    pub fn to_string(&self) -> (s: String)
        ensures
            s@ == self.message(),
    {
        match self {
            SinkError::Connection(m) => join2("L1 connection failed: ", m.as_str()),
            SinkError::TxFailed(m) => join2("Transaction failed: ", m.as_str()),
            SinkError::InsufficientFunds => String::from_str("Insufficient funds"),
            SinkError::BlobGasTooExpensive { current, max } => join4(
                "Blob gas too expensive: ",
                u64_decimal(*current).as_str(),
                " > ",
                u64_decimal(*max).as_str(),
            ),
            SinkError::Timeout => String::from_str("Timeout waiting for confirmation"),
        }
    }
}

/// Errors of a block or batch source.
#[derive(Clone, Debug, PartialEq, Eq)]
pub enum SourceError {
    /// Connection error.
    Connection(String),
    /// No data available.
    Empty,
}

} // verus!
