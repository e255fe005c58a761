//! Configuration, errors, metrics and state of the batcher service.

use vstd::prelude::*;
use core::time::Duration;
use crate::text::{decimal, join2, join4, u128_decimal, u64_decimal, usize_decimal};

verus! {

/// The duration of `secs` whole seconds, as std's `Duration::from_secs`
/// builds it.
pub uninterp spec fn secs_duration(secs: u64) -> Duration;

/// std's `Duration::from_secs`.
#[verifier::external_body]
pub(crate) fn duration_from_secs(secs: u64) -> (d: Duration)
    ensures
        d == secs_duration(secs),
{
    Duration::from_secs(secs)
}

/// std's `Clone` for `Duration`, a `Copy` type: the clone equals the
/// value it was taken from.
pub assume_specification[ <Duration as Clone>::clone ](d: &Duration) -> (r: Duration)
    ensures
        r == *d,
;

/// Batcher configuration.
#[derive(Clone, Debug)]
pub struct BatcherConfig {
    /// Maximum batch size in bytes (default: 128 KB).
    pub max_batch_size: usize,
    /// Maximum blocks per batch (default: 100).
    pub max_blocks_per_batch: u16,
    /// Batch submission interval (default: 12s).
    pub batch_interval: Duration,
    /// Minimum batch size in bytes (default: 1 KB).
    pub min_batch_size: usize,
    /// Use EIP-4844 blobs for submission (default: true).
    pub use_blobs: bool,
    /// Maximum blob fee per gas (default: 10 gwei).
    pub max_blob_fee_per_gas: u128,
    /// Maximum blobs per transaction (default: 6).
    pub max_blobs_per_tx: usize,
    /// Number of confirmations required (default: 10).
    pub num_confirmations: u64,
    /// Interval before resubmitting transactions (default: 48s).
    pub resubmission_timeout: Duration,
    /// Network timeout for RPC calls (default: 10s).
    pub network_timeout: Duration,
    /// Maximum L1 block drift (default: 30).
    pub max_l1_drift: u64,
    /// Sequencing window in blocks (default: 3600).
    pub sequencing_window: u64,
    /// Safe confirmations threshold (default: 12).
    pub safe_confirmations: u64,
}

impl BatcherConfig {
    /// The default configuration.
    pub open spec fn default_spec() -> BatcherConfig {
        BatcherConfig {
            max_batch_size: 131072,
            max_blocks_per_batch: 100,
            batch_interval: secs_duration(12),
            min_batch_size: 1024,
            use_blobs: true,
            max_blob_fee_per_gas: 10_000_000_000,
            max_blobs_per_tx: 6,
            num_confirmations: 10,
            resubmission_timeout: secs_duration(48),
            network_timeout: secs_duration(10),
            max_l1_drift: 30,
            sequencing_window: 3600,
            safe_confirmations: 12,
        }
    }

    /// Creates a builder that starts from the default configuration.
    pub fn builder() -> (b: BatcherConfigBuilder)
        ensures
            b.config() == BatcherConfig::default_spec(),
    {
        BatcherConfigBuilder::default()
    }
}

impl Default for BatcherConfig {
    /// 128 KB batches of at most 100 blocks every 12 s (at least 1 KB), blobs
    /// at up to 10 gwei and 6 per transaction, 10 confirmations, 48 s
    /// resubmission and 10 s network timeouts, an L1 drift of 30, a 3600-block
    /// sequencing window and 12 safe confirmations.
    fn default() -> (c: Self)
        ensures
            c == BatcherConfig::default_spec(),
    {
        BatcherConfig {
            max_batch_size: 128 * 1024,
            max_blocks_per_batch: 100,
            batch_interval: duration_from_secs(12),
            min_batch_size: 1024,
            use_blobs: true,
            max_blob_fee_per_gas: 10_000_000_000,
            max_blobs_per_tx: 6,
            num_confirmations: 10,
            resubmission_timeout: duration_from_secs(48),
            network_timeout: duration_from_secs(10),
            max_l1_drift: 30,
            sequencing_window: 3600,
            safe_confirmations: 12,
        }
    }
}

/// Builder for [`BatcherConfig`].
#[derive(Clone, Debug)]
pub struct BatcherConfigBuilder {
    max_batch_size: usize,
    max_blocks_per_batch: u16,
    batch_interval: Duration,
    min_batch_size: usize,
    use_blobs: bool,
    max_blob_fee_per_gas: u128,
    max_blobs_per_tx: usize,
    num_confirmations: u64,
    resubmission_timeout: Duration,
    network_timeout: Duration,
    max_l1_drift: u64,
    sequencing_window: u64,
    safe_confirmations: u64,
}

impl BatcherConfigBuilder {
    /// The configuration the builder will build.
    pub closed spec fn config(&self) -> BatcherConfig {
        BatcherConfig {
            max_batch_size: self.max_batch_size,
            max_blocks_per_batch: self.max_blocks_per_batch,
            batch_interval: self.batch_interval,
            min_batch_size: self.min_batch_size,
            use_blobs: self.use_blobs,
            max_blob_fee_per_gas: self.max_blob_fee_per_gas,
            max_blobs_per_tx: self.max_blobs_per_tx,
            num_confirmations: self.num_confirmations,
            resubmission_timeout: self.resubmission_timeout,
            network_timeout: self.network_timeout,
            max_l1_drift: self.max_l1_drift,
            sequencing_window: self.sequencing_window,
            safe_confirmations: self.safe_confirmations,
        }
    }

    /// Sets the maximum batch size in bytes.
    pub fn max_batch_size(self, max_batch_size: usize) -> (b: Self)
        ensures
            b.config() == (BatcherConfig { max_batch_size, ..self.config() }),
    {
        BatcherConfigBuilder { max_batch_size, ..self }
    }

    /// Sets the maximum blocks per batch.
    pub fn max_blocks_per_batch(self, max_blocks_per_batch: u16) -> (b: Self)
        ensures
            b.config() == (BatcherConfig { max_blocks_per_batch, ..self.config() }),
    {
        BatcherConfigBuilder { max_blocks_per_batch, ..self }
    }

    /// Sets the batch submission interval.
    pub fn batch_interval(self, batch_interval: Duration) -> (b: Self)
        ensures
            b.config() == (BatcherConfig { batch_interval, ..self.config() }),
    {
        BatcherConfigBuilder { batch_interval, ..self }
    }

    /// Sets the minimum batch size in bytes.
    pub fn min_batch_size(self, min_batch_size: usize) -> (b: Self)
        ensures
            b.config() == (BatcherConfig { min_batch_size, ..self.config() }),
    {
        BatcherConfigBuilder { min_batch_size, ..self }
    }

    /// Sets whether to use EIP-4844 blobs for submission.
    pub fn use_blobs(self, use_blobs: bool) -> (b: Self)
        ensures
            b.config() == (BatcherConfig { use_blobs, ..self.config() }),
    {
        BatcherConfigBuilder { use_blobs, ..self }
    }

    /// Sets the maximum blob fee per gas.
    pub fn max_blob_fee_per_gas(self, max_blob_fee_per_gas: u128) -> (b: Self)
        ensures
            b.config() == (BatcherConfig { max_blob_fee_per_gas, ..self.config() }),
    {
        BatcherConfigBuilder { max_blob_fee_per_gas, ..self }
    }

    /// Sets the maximum blobs per transaction.
    pub fn max_blobs_per_tx(self, max_blobs_per_tx: usize) -> (b: Self)
        ensures
            b.config() == (BatcherConfig { max_blobs_per_tx, ..self.config() }),
    {
        BatcherConfigBuilder { max_blobs_per_tx, ..self }
    }

    /// Sets the number of confirmations required.
    pub fn num_confirmations(self, num_confirmations: u64) -> (b: Self)
        ensures
            b.config() == (BatcherConfig { num_confirmations, ..self.config() }),
    {
        BatcherConfigBuilder { num_confirmations, ..self }
    }

    /// Sets the interval before resubmitting transactions.
    pub fn resubmission_timeout(self, resubmission_timeout: Duration) -> (b: Self)
        ensures
            b.config() == (BatcherConfig { resubmission_timeout, ..self.config() }),
    {
        BatcherConfigBuilder { resubmission_timeout, ..self }
    }

    /// Sets the network timeout for RPC calls.
    pub fn network_timeout(self, network_timeout: Duration) -> (b: Self)
        ensures
            b.config() == (BatcherConfig { network_timeout, ..self.config() }),
    {
        BatcherConfigBuilder { network_timeout, ..self }
    }

    /// Sets the maximum L1 block drift.
    pub fn max_l1_drift(self, max_l1_drift: u64) -> (b: Self)
        ensures
            b.config() == (BatcherConfig { max_l1_drift, ..self.config() }),
    {
        BatcherConfigBuilder { max_l1_drift, ..self }
    }

    /// Sets the sequencing window in blocks.
    pub fn sequencing_window(self, sequencing_window: u64) -> (b: Self)
        ensures
            b.config() == (BatcherConfig { sequencing_window, ..self.config() }),
    {
        BatcherConfigBuilder { sequencing_window, ..self }
    }

    /// Sets the safe confirmations threshold.
    pub fn safe_confirmations(self, safe_confirmations: u64) -> (b: Self)
        ensures
            b.config() == (BatcherConfig { safe_confirmations, ..self.config() }),
    {
        BatcherConfigBuilder { safe_confirmations, ..self }
    }

    /// Builds the [`BatcherConfig`].
    pub fn build(self) -> (c: BatcherConfig)
        ensures
            c == self.config(),
    {
        BatcherConfig {
            max_batch_size: self.max_batch_size,
            max_blocks_per_batch: self.max_blocks_per_batch,
            batch_interval: self.batch_interval,
            min_batch_size: self.min_batch_size,
            use_blobs: self.use_blobs,
            max_blob_fee_per_gas: self.max_blob_fee_per_gas,
            max_blobs_per_tx: self.max_blobs_per_tx,
            num_confirmations: self.num_confirmations,
            resubmission_timeout: self.resubmission_timeout,
            network_timeout: self.network_timeout,
            max_l1_drift: self.max_l1_drift,
            sequencing_window: self.sequencing_window,
            safe_confirmations: self.safe_confirmations,
        }
    }
}

impl Default for BatcherConfigBuilder {
    /// A builder holding the default configuration.
    fn default() -> (b: Self)
        ensures
            b.config() == BatcherConfig::default_spec(),
    {
        let d = BatcherConfig::default();
        BatcherConfigBuilder {
            max_batch_size: d.max_batch_size,
            max_blocks_per_batch: d.max_blocks_per_batch,
            batch_interval: d.batch_interval,
            min_batch_size: d.min_batch_size,
            use_blobs: d.use_blobs,
            max_blob_fee_per_gas: d.max_blob_fee_per_gas,
            max_blobs_per_tx: d.max_blobs_per_tx,
            num_confirmations: d.num_confirmations,
            resubmission_timeout: d.resubmission_timeout,
            network_timeout: d.network_timeout,
            max_l1_drift: d.max_l1_drift,
            sequencing_window: d.sequencing_window,
            safe_confirmations: d.safe_confirmations,
        }
    }
}


/// Batcher errors.
#[derive(Clone, Debug)]
pub enum BatcherError {
    /// L2 source unavailable.
    SourceUnavailable(String),
    /// No pending blocks available.
    NoPendingBlocks,
    /// Block sequence gap.
    SequenceGap {
        /// Expected sequence number.
        expected: u64,
        /// Received sequence number.
        got: u64,
    },
    /// Compression failed.
    CompressionFailed(String),
    /// Batch too large after compression.
    BatchTooLarge {
        /// Actual batch size.
        size: usize,
        /// Maximum allowed size.
        max: usize,
    },
    /// L1 submission failed.
    SubmissionFailed(String),
    /// Blob gas too expensive.
    BlobGasTooExpensive {
        /// Current blob gas price.
        current: u128,
        /// Maximum blob gas price.
        max: u128,
    },
    /// Transaction confirmation timeout.
    ConfirmationTimeout,
    /// L1 drift exceeded.
    L1DriftExceeded {
        /// Current drift value.
        drift: u64,
        /// Maximum allowed drift.
        max: u64,
    },
    /// Sequencing window expired.
    SequencingWindowExpired,
    /// Pipeline error.
    Pipeline(String),
    /// Transaction manager error.
    TxManager(String),
}

impl BatcherError {
    /// Retryable errors: an unavailable source, a failed submission, too
    /// expensive blob gas or a confirmation timeout.
    pub open spec fn retryable(&self) -> bool {
        self is SourceUnavailable || self is SubmissionFailed || self is BlobGasTooExpensive
            || self is ConfirmationTimeout
    }

    /// Fatal errors: an expired sequencing window or exceeded L1 drift.
    pub open spec fn fatal(&self) -> bool {
        self is SequencingWindowExpired || self is L1DriftExceeded
    }

    /// Whether the error is retryable: an unavailable source, a failed
    /// submission, too expensive blob gas or a confirmation timeout.
    pub fn is_retryable(&self) -> (r: bool)
        ensures
            r == self.retryable(),
    {
        match self {
            BatcherError::SourceUnavailable(_) | BatcherError::SubmissionFailed(_)
            | BatcherError::BlobGasTooExpensive { .. } | BatcherError::ConfirmationTimeout => true,
            _ => false,
        }
    }

    /// Whether the error is fatal: an expired sequencing window or exceeded
    /// L1 drift.
    pub fn is_fatal(&self) -> (r: bool)
        ensures
            r == self.fatal(),
    {
        match self {
            BatcherError::SequencingWindowExpired | BatcherError::L1DriftExceeded { .. } => true,
            _ => false,
        }
    }

    /// The error's message.
    pub open spec fn message(&self) -> Seq<char> {
        match self {
            BatcherError::SourceUnavailable(m) => "L2 source unavailable: "@ + m@,
            BatcherError::NoPendingBlocks => "No pending blocks available"@,
            BatcherError::SequenceGap { expected, got } => "Block sequence gap: expected "@
                + decimal(*expected as nat) + ", got "@ + decimal(*got as nat),
            BatcherError::CompressionFailed(m) => "Compression failed: "@ + m@,
            BatcherError::BatchTooLarge { size, max } => "Batch too large after compression: "@
                + decimal(*size as nat) + " > "@ + decimal(*max as nat),
            BatcherError::SubmissionFailed(m) => "L1 submission failed: "@ + m@,
            BatcherError::BlobGasTooExpensive { current, max } => "Blob gas too expensive: "@
                + decimal(*current as nat) + " > "@ + decimal(*max as nat),
            BatcherError::ConfirmationTimeout => "Transaction confirmation timeout"@,
            BatcherError::L1DriftExceeded { drift, max } => "L1 drift exceeded: "@ + decimal(*drift as nat)
                + " > "@ + decimal(*max as nat),
            BatcherError::SequencingWindowExpired => "Sequencing window expired"@,
            BatcherError::Pipeline(m) => "Pipeline error: "@ + m@,
            BatcherError::TxManager(m) => "Transaction manager error: "@ + m@,
        }
    }

    /// Renders the error's message.
    pub fn to_string(&self) -> (s: String)
        ensures
            s@ == self.message(),
    {
        match self {
            BatcherError::SourceUnavailable(m) => join2("L2 source unavailable: ", m.as_str()),
            BatcherError::NoPendingBlocks => String::from_str("No pending blocks available"),
            BatcherError::SequenceGap { expected, got } => join4(
                "Block sequence gap: expected ",
                u64_decimal(*expected).as_str(),
                ", got ",
                u64_decimal(*got).as_str(),
            ),
            BatcherError::CompressionFailed(m) => join2("Compression failed: ", m.as_str()),
            BatcherError::BatchTooLarge { size, max } => join4(
                "Batch too large after compression: ",
                usize_decimal(*size).as_str(),
                " > ",
                usize_decimal(*max).as_str(),
            ),
            BatcherError::SubmissionFailed(m) => join2("L1 submission failed: ", m.as_str()),
            BatcherError::BlobGasTooExpensive { current, max } => join4(
                "Blob gas too expensive: ",
                u128_decimal(*current).as_str(),
                " > ",
                u128_decimal(*max).as_str(),
            ),
            BatcherError::ConfirmationTimeout => String::from_str("Transaction confirmation timeout"),
            BatcherError::L1DriftExceeded { drift, max } => join4(
                "L1 drift exceeded: ",
                u64_decimal(*drift).as_str(),
                " > ",
                u64_decimal(*max).as_str(),
            ),
            BatcherError::SequencingWindowExpired => String::from_str("Sequencing window expired"),
            BatcherError::Pipeline(m) => join2("Pipeline error: ", m.as_str()),
            BatcherError::TxManager(m) => join2("Transaction manager error: ", m.as_str()),
        }
    }
}

/// No batcher error is both retryable and fatal.
pub proof fn law_batcher_error_not_retryable_and_fatal(e: BatcherError)
    ensures
        !(e.retryable() && e.fatal()),
{
}

/// Batcher metrics for observability.
#[derive(Clone, Debug, Default)]
pub struct BatcherMetrics {
    /// Total batches submitted.
    pub batches_submitted: u64,
    /// Total batches failed.
    pub batches_failed: u64,
    /// Total L2 blocks processed.
    pub blocks_processed: u64,
    /// Current pending blocks in buffer.
    pub pending_blocks: u64,
    /// Current L2 safe block number.
    pub l2_safe_block: u64,
    /// Total uncompressed bytes submitted.
    pub total_uncompressed_bytes: u64,
    /// Total compressed bytes submitted.
    pub total_compressed_bytes: u64,
    /// Total L1 gas used.
    pub l1_gas_used: u64,
    /// Total blob gas used.
    pub blob_gas_used: u64,
    /// Total transaction resubmissions.
    pub tx_resubmissions: u64,
    /// Current L1 block drift.
    pub l1_drift: u64,
}

impl BatcherMetrics {
    /// All counters zero.
    pub open spec fn zero() -> BatcherMetrics {
        BatcherMetrics {
            batches_submitted: 0,
            batches_failed: 0,
            blocks_processed: 0,
            pending_blocks: 0,
            l2_safe_block: 0,
            total_uncompressed_bytes: 0,
            total_compressed_bytes: 0,
            l1_gas_used: 0,
            blob_gas_used: 0,
            tx_resubmissions: 0,
            l1_drift: 0,
        }
    }

    /// Creates metrics with every counter at zero.
    pub fn new() -> (m: BatcherMetrics)
        ensures
            m == BatcherMetrics::zero(),
    {
        BatcherMetrics {
            batches_submitted: 0,
            batches_failed: 0,
            blocks_processed: 0,
            pending_blocks: 0,
            l2_safe_block: 0,
            total_uncompressed_bytes: 0,
            total_compressed_bytes: 0,
            l1_gas_used: 0,
            blob_gas_used: 0,
            tx_resubmissions: 0,
            l1_drift: 0,
        }
    }

    /// Records a successful batch submission: one more batch, and the sizes
    /// and gas added to the totals. Totals past `u64::MAX` overflow
    /// and are ruled out.
    pub fn record_submission(&mut self, uncompressed: u64, compressed: u64, gas_used: u64)
        requires
            old(self).batches_submitted < u64::MAX,
            old(self).total_uncompressed_bytes + uncompressed <= u64::MAX,
            old(self).total_compressed_bytes + compressed <= u64::MAX,
            old(self).l1_gas_used + gas_used <= u64::MAX,
        ensures
            *final(self) == (BatcherMetrics {
                batches_submitted: (old(self).batches_submitted + 1) as u64,
                total_uncompressed_bytes: (old(self).total_uncompressed_bytes + uncompressed) as u64,
                total_compressed_bytes: (old(self).total_compressed_bytes + compressed) as u64,
                l1_gas_used: (old(self).l1_gas_used + gas_used) as u64,
                ..*old(self)
            }),
    {
        self.batches_submitted = self.batches_submitted + 1;
        self.total_uncompressed_bytes = self.total_uncompressed_bytes + uncompressed;
        self.total_compressed_bytes = self.total_compressed_bytes + compressed;
        self.l1_gas_used = self.l1_gas_used + gas_used;
    }

    /// Records a failed batch submission. A count past `u64::MAX` overflows
    /// and is ruled out.
    pub fn record_failure(&mut self)
        requires
            old(self).batches_failed < u64::MAX,
        ensures
            *final(self) == (BatcherMetrics { batches_failed: (old(self).batches_failed + 1) as u64, ..*old(self) }),
    {
        self.batches_failed = self.batches_failed + 1;
    }

    /// Adds `count` to the processed blocks. A total past `u64::MAX`
    /// overflows and is ruled out.
    pub fn record_blocks(&mut self, count: u64)
        requires
            old(self).blocks_processed + count <= u64::MAX,
        ensures
            *final(self) == (BatcherMetrics {
                blocks_processed: (old(self).blocks_processed + count) as u64,
                ..*old(self)
            }),
    {
        self.blocks_processed = self.blocks_processed + count;
    }

    /// Sets the pending blocks count.
    pub fn set_pending_blocks(&mut self, count: u64)
        ensures
            *final(self) == (BatcherMetrics { pending_blocks: count, ..*old(self) }),
    {
        self.pending_blocks = count;
    }
}

/// Current state of the batcher service.
#[derive(Clone, Debug, Default)]
pub struct BatcherState {
    /// Last submitted batch number.
    pub last_batch_number: u64,
    /// Last confirmed L1 block number.
    pub last_l1_block: u64,
    /// Total blocks processed.
    pub total_blocks_processed: u64,
    /// Total batches submitted.
    pub total_batches_submitted: u64,
    /// Whether the service is healthy.
    pub is_healthy: bool,
}

/// Error of setting up a batch context.
#[derive(Clone, Debug)]
pub enum BatchContextError {
    /// Connection error.
    Connection(String),
    /// Mode not supported.
    Unsupported(String),
}

impl BatchContextError {
    /// The error's message.
    pub open spec fn message(&self) -> Seq<char> {
        match self {
            BatchContextError::Connection(m) => "Connection error: "@ + m@,
            BatchContextError::Unsupported(m) => "Mode not supported: "@ + m@,
        }
    }

    /// Renders the error's message.
    pub fn to_string(&self) -> (s: String)
        ensures
            s@ == self.message(),
    {
        match self {
            BatchContextError::Connection(m) => join2("Connection error: ", m.as_str()),
            BatchContextError::Unsupported(m) => join2("Mode not supported: ", m.as_str()),
        }
    }

    /// The error for the remote mode, which a batch context cannot serve.
    pub fn remote_unsupported() -> (e: Self)
        ensures
            e matches BatchContextError::Unsupported(m) && m@
                == "Remote batch submission mode is currently unsupported. Please use 'anvil' (default) or 'in-memory' mode."@,
    {
        BatchContextError::Unsupported(
            String::from_str(
                "Remote batch submission mode is currently unsupported. Please use 'anvil' (default) or 'in-memory' mode.",
            ),
        )
    }
}

} // verus!
