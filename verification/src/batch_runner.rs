//! The batch submission runner: its configuration, errors, metrics, and the
//! decisions of its loop, which streams L2 blocks, accumulates them into
//! batches and hands each due batch to a sink.

use vstd::prelude::*;
use std::collections::HashMap;
use std::time::Instant;
use crate::latency::{LatencyWindow, after_latency, samples_sum};
use crate::pipeline::{CompressedBatch, CompressionError, SinkError, SubmissionReceipt};
use crate::text::{decimal, join2, u64_decimal};

verus! {

broadcast use vstd::std_specs::hash::group_hash_axioms;

/// Batch submission runner configuration.
#[derive(Clone, Debug)]
pub struct BatchSubmissionConfig {
    /// Maximum blocks per batch before submission (default: 10).
    pub max_blocks_per_batch: usize,
    /// Target batch size in bytes before submission (default: 131072 = 128 KB).
    pub target_batch_size: usize,
    /// Poll interval in milliseconds for fetching new blocks (default: 100).
    pub poll_interval_ms: u64,
}

impl BatchSubmissionConfig {
    /// The default configuration.
    pub open spec fn default_spec() -> BatchSubmissionConfig {
        BatchSubmissionConfig { max_blocks_per_batch: 10, target_batch_size: 131072, poll_interval_ms: 100 }
    }

    /// Creates a builder that starts from the default configuration.
    pub fn builder() -> (b: BatchSubmissionConfigBuilder)
        ensures
            b.config() == BatchSubmissionConfig::default_spec(),
    {
        BatchSubmissionConfigBuilder::default()
    }
}

impl Default for BatchSubmissionConfig {
    /// Batches of at most 10 blocks or 128 KB, polled every 100 ms.
    fn default() -> (c: Self)
        ensures
            c == BatchSubmissionConfig::default_spec(),
    {
        BatchSubmissionConfig { max_blocks_per_batch: 10, target_batch_size: 131_072, poll_interval_ms: 100 }
    }
}

/// Builder for [`BatchSubmissionConfig`].
#[derive(Clone, Debug)]
pub struct BatchSubmissionConfigBuilder {
    max_blocks_per_batch: usize,
    target_batch_size: usize,
    poll_interval_ms: u64,
}

impl BatchSubmissionConfigBuilder {
    /// The configuration the builder will build.
    pub closed spec fn config(&self) -> BatchSubmissionConfig {
        BatchSubmissionConfig {
            max_blocks_per_batch: self.max_blocks_per_batch,
            target_batch_size: self.target_batch_size,
            poll_interval_ms: self.poll_interval_ms,
        }
    }

    /// Sets the maximum blocks per batch.
    pub fn max_blocks_per_batch(self, max_blocks_per_batch: usize) -> (b: Self)
        ensures
            b.config() == (BatchSubmissionConfig { max_blocks_per_batch, ..self.config() }),
            b.config() == apply_setter(self.config(), SetterCall::MaxBlocksPerBatch(max_blocks_per_batch)),
    {
        BatchSubmissionConfigBuilder { max_blocks_per_batch, ..self }
    }

    /// Sets the target batch size in bytes.
    pub fn target_batch_size(self, target_batch_size: usize) -> (b: Self)
        ensures
            b.config() == (BatchSubmissionConfig { target_batch_size, ..self.config() }),
            b.config() == apply_setter(self.config(), SetterCall::TargetBatchSize(target_batch_size)),
    {
        BatchSubmissionConfigBuilder { target_batch_size, ..self }
    }

    /// Sets the poll interval in milliseconds.
    pub fn poll_interval_ms(self, poll_interval_ms: u64) -> (b: Self)
        ensures
            b.config() == (BatchSubmissionConfig { poll_interval_ms, ..self.config() }),
            b.config() == apply_setter(self.config(), SetterCall::PollIntervalMs(poll_interval_ms)),
    {
        BatchSubmissionConfigBuilder { poll_interval_ms, ..self }
    }

    /// Builds the [`BatchSubmissionConfig`].
    pub fn build(self) -> (c: BatchSubmissionConfig)
        ensures
            c == self.config(),
    {
        BatchSubmissionConfig {
            max_blocks_per_batch: self.max_blocks_per_batch,
            target_batch_size: self.target_batch_size,
            poll_interval_ms: self.poll_interval_ms,
        }
    }
}

impl Default for BatchSubmissionConfigBuilder {
    /// A builder holding the default configuration.
    fn default() -> (b: Self)
        ensures
            b.config() == BatchSubmissionConfig::default_spec(),
    {
        let d = BatchSubmissionConfig::default();
        BatchSubmissionConfigBuilder {
            max_blocks_per_batch: d.max_blocks_per_batch,
            target_batch_size: d.target_batch_size,
            poll_interval_ms: d.poll_interval_ms,
        }
    }
}

/// A call of one of the builder's setters, with its argument.
pub enum SetterCall {
    /// `max_blocks_per_batch(n)`.
    MaxBlocksPerBatch(usize),
    /// `target_batch_size(n)`.
    TargetBatchSize(usize),
    /// `poll_interval_ms(n)`.
    PollIntervalMs(u64),
}

/// The configuration after one setter call, as the setter's contract gives
/// it.
pub open spec fn apply_setter(c: BatchSubmissionConfig, call: SetterCall) -> BatchSubmissionConfig {
    match call {
        SetterCall::MaxBlocksPerBatch(n) => BatchSubmissionConfig { max_blocks_per_batch: n, ..c },
        SetterCall::TargetBatchSize(n) => BatchSubmissionConfig { target_batch_size: n, ..c },
        SetterCall::PollIntervalMs(n) => BatchSubmissionConfig { poll_interval_ms: n, ..c },
    }
}

/// The configuration after a sequence of setter calls, in order.
pub open spec fn apply_setters(c: BatchSubmissionConfig, calls: Seq<SetterCall>) -> BatchSubmissionConfig
    decreases calls.len(),
{
    if calls.len() == 0 {
        c
    } else {
        apply_setter(apply_setters(c, calls.drop_last()), calls.last())
    }
}

/// The argument of the last `max_blocks_per_batch` call, or `d` if none.
pub open spec fn last_max_blocks(calls: Seq<SetterCall>, d: usize) -> usize
    decreases calls.len(),
{
    if calls.len() == 0 {
        d
    } else {
        match calls.last() {
            SetterCall::MaxBlocksPerBatch(n) => n,
            _ => last_max_blocks(calls.drop_last(), d),
        }
    }
}

/// The argument of the last `target_batch_size` call, or `d` if none.
pub open spec fn last_target_size(calls: Seq<SetterCall>, d: usize) -> usize
    decreases calls.len(),
{
    if calls.len() == 0 {
        d
    } else {
        match calls.last() {
            SetterCall::TargetBatchSize(n) => n,
            _ => last_target_size(calls.drop_last(), d),
        }
    }
}

/// The argument of the last `poll_interval_ms` call, or `d` if none.
pub open spec fn last_poll_interval(calls: Seq<SetterCall>, d: u64) -> u64
    decreases calls.len(),
{
    if calls.len() == 0 {
        d
    } else {
        match calls.last() {
            SetterCall::PollIntervalMs(n) => n,
            _ => last_poll_interval(calls.drop_last(), d),
        }
    }
}

/// Whatever the order of the builder's setter calls, each field of the
/// configuration built is the argument of the last call to its setter, or
/// the starting value where its setter was never called.
pub proof fn law_builder_last_setter_wins(c: BatchSubmissionConfig, calls: Seq<SetterCall>)
    ensures
        apply_setters(c, calls) == (BatchSubmissionConfig {
            max_blocks_per_batch: last_max_blocks(calls, c.max_blocks_per_batch),
            target_batch_size: last_target_size(calls, c.target_batch_size),
            poll_interval_ms: last_poll_interval(calls, c.poll_interval_ms),
        }),
    decreases calls.len(),
{
    if calls.len() > 0 {
        law_builder_last_setter_wins(c, calls.drop_last());
    }
}

/// Batch submission runner errors.
#[derive(Clone, Debug)]
pub enum BatchSubmissionError {
    /// Block source error.
    SourceError(String),
    /// Block not found.
    BlockNotFound(u64),
    /// Encoding failed.
    EncodingFailed(String),
    /// Compression failed.
    CompressionFailed(String),
    /// Batch sink error.
    SinkError(String),
}

impl BatchSubmissionError {
    /// Retryable errors: a source error or a block not found.
    pub open spec fn retryable(&self) -> bool {
        self is SourceError || self is BlockNotFound
    }

    /// Fatal errors: a failed encoding.
    pub open spec fn fatal(&self) -> bool {
        self is EncodingFailed
    }

    /// Whether the error is retryable: a source error or a block not found.
    pub fn is_retryable(&self) -> (r: bool)
        ensures
            r == self.retryable(),
    {
        match self {
            BatchSubmissionError::SourceError(_) | BatchSubmissionError::BlockNotFound(_) => true,
            _ => false,
        }
    }

    /// Whether the error is fatal: a failed encoding.
    pub fn is_fatal(&self) -> (r: bool)
        ensures
            r == self.fatal(),
    {
        match self {
            BatchSubmissionError::EncodingFailed(_) => true,
            _ => false,
        }
    }

    /// The error's message.
    pub open spec fn message(&self) -> Seq<char> {
        match self {
            BatchSubmissionError::SourceError(m) => "Block source error: "@ + m@,
            BatchSubmissionError::BlockNotFound(n) => "Block not found: "@ + decimal(*n as nat),
            BatchSubmissionError::EncodingFailed(m) => "Encoding failed: "@ + m@,
            BatchSubmissionError::CompressionFailed(m) => "Compression failed: "@ + m@,
            BatchSubmissionError::SinkError(m) => "Batch sink error: "@ + m@,
        }
    }

    /// Renders the error's message.
    pub fn to_string(&self) -> (s: String)
        ensures
            s@ == self.message(),
    {
        match self {
            BatchSubmissionError::SourceError(m) => join2("Block source error: ", m.as_str()),
            BatchSubmissionError::BlockNotFound(n) => join2("Block not found: ", u64_decimal(*n).as_str()),
            BatchSubmissionError::EncodingFailed(m) => join2("Encoding failed: ", m.as_str()),
            BatchSubmissionError::CompressionFailed(m) => join2("Compression failed: ", m.as_str()),
            BatchSubmissionError::SinkError(m) => join2("Batch sink error: ", m.as_str()),
        }
    }
}

/// The serialized payload of a batch, or the error for a payload that could
/// not be serialized: compression failed, with the serializer's message.
pub fn serialization_step(r: Result<Vec<u8>, String>) -> (s: Result<Vec<u8>, BatchSubmissionError>)
    ensures
        match r {
            Ok(v) => s matches Ok(w) && w@ == v@,
            Err(m) => s matches Err(BatchSubmissionError::CompressionFailed(t)) && t@ == "Serialization failed: "@
                + m@,
        },
{
    match r {
        Ok(v) => Ok(v),
        Err(m) => Err(BatchSubmissionError::CompressionFailed(join2("Serialization failed: ", m.as_str()))),
    }
}

/// The compressed payload of a batch, or the error for a payload the
/// compressor refused: compression failed, with the compressor's message.
pub fn compression_step(r: Result<Vec<u8>, CompressionError>) -> (s: Result<Vec<u8>, BatchSubmissionError>)
    ensures
        match r {
            Ok(v) => s matches Ok(w) && w@ == v@,
            Err(e) => s matches Err(BatchSubmissionError::CompressionFailed(t)) && t@ == e.message(),
        },
{
    match r {
        Ok(v) => Ok(v),
        Err(e) => Err(BatchSubmissionError::CompressionFailed(e.to_string())),
    }
}

/// The transaction hash of a submitted batch, or the error for a batch the
/// sink refused: a sink error, with the sink's message.
pub fn sink_step(r: Result<SubmissionReceipt, SinkError>) -> (s: Result<[u8; 32], BatchSubmissionError>)
    ensures
        match r {
            Ok(receipt) => s == Ok::<[u8; 32], BatchSubmissionError>(receipt.tx_hash),
            Err(e) => s matches Err(BatchSubmissionError::SinkError(t)) && t@ == e.message(),
        },
{
    match r {
        Ok(receipt) => Ok(receipt.tx_hash),
        Err(e) => Err(BatchSubmissionError::SinkError(e.to_string())),
    }
}

/// No batch submission error is both retryable and fatal.
pub proof fn law_submission_error_not_retryable_and_fatal(e: BatchSubmissionError)
    ensures
        !(e.retryable() && e.fatal()),
{
}

/// Errors of a block source.
#[derive(Clone, Debug)]
pub enum BlockSourceError {
    /// Block not found.
    BlockNotFound(u64),
    /// Connection error.
    ConnectionError(String),
    /// RPC error.
    RpcError(String),
}

impl BlockSourceError {
    /// The error's message.
    pub open spec fn message(&self) -> Seq<char> {
        match self {
            BlockSourceError::BlockNotFound(n) => "Block not found: "@ + decimal(*n as nat),
            BlockSourceError::ConnectionError(m) => "Connection error: "@ + m@,
            BlockSourceError::RpcError(m) => "RPC error: "@ + m@,
        }
    }

    /// Renders the error's message.
    pub fn to_string(&self) -> (s: String)
        ensures
            s@ == self.message(),
    {
        match self {
            BlockSourceError::BlockNotFound(n) => join2("Block not found: ", u64_decimal(*n).as_str()),
            BlockSourceError::ConnectionError(m) => join2("Connection error: ", m.as_str()),
            BlockSourceError::RpcError(m) => join2("RPC error: ", m.as_str()),
        }
    }

    /// Whether the error says the block does not exist yet.
    pub fn is_block_not_found(&self) -> (r: bool)
        ensures
            r == self is BlockNotFound,
    {
        match self {
            BlockSourceError::BlockNotFound(_) => true,
            _ => false,
        }
    }
}

/// Batch submission metrics for observability.
#[derive(Clone, Debug, Default)]
pub struct BatchSubmissionMetrics {
    /// Total batches submitted.
    pub batches_submitted: u64,
    /// Total blocks processed.
    pub blocks_processed: u64,
    /// Total uncompressed bytes.
    pub bytes_original: u64,
    /// Total compressed bytes.
    pub bytes_compressed: u64,
    /// Latest block number processed.
    pub latest_block: u64,
    /// Submission latencies in milliseconds, oldest first.
    latencies_ms: LatencyWindow,
    /// Batch submission times, by batch number.
    submission_times: HashMap<u64, Instant>,
}

impl BatchSubmissionMetrics {
    /// Total batches submitted.
    pub closed spec fn batches(&self) -> u64 {
        self.batches_submitted
    }

    /// Total blocks processed.
    pub closed spec fn blocks(&self) -> u64 {
        self.blocks_processed
    }

    /// Total uncompressed bytes.
    pub closed spec fn original(&self) -> u64 {
        self.bytes_original
    }

    /// Total compressed bytes.
    pub closed spec fn compressed(&self) -> u64 {
        self.bytes_compressed
    }

    /// Latest block number processed.
    pub closed spec fn latest(&self) -> u64 {
        self.latest_block
    }

    /// The latency samples kept, oldest first.
    pub closed spec fn latencies(&self) -> Seq<u64> {
        self.latencies_ms@
    }

    /// The recorded submission times, by batch number.
    pub closed spec fn times(&self) -> Map<u64, Instant> {
        self.submission_times@
    }

    /// Creates metrics with every counter at zero and nothing recorded.
    pub fn new() -> (m: Self)
        ensures
            m.batches() == 0,
            m.blocks() == 0,
            m.original() == 0,
            m.compressed() == 0,
            m.latest() == 0,
            m.latencies() == Seq::<u64>::empty(),
            m.times() == Map::<u64, Instant>::empty(),
    {
        BatchSubmissionMetrics {
            batches_submitted: 0,
            blocks_processed: 0,
            bytes_original: 0,
            bytes_compressed: 0,
            latest_block: 0,
            latencies_ms: LatencyWindow::new(),
            submission_times: HashMap::new(),
        }
    }

    /// Records a submission latency sample, keeping the last hundred.
    pub fn record_latency(&mut self, latency_ms: u64)
        ensures
            final(self).latencies() == after_latency(old(self).latencies(), latency_ms),
            final(self).times() == old(self).times(),
            final(self).batches() == old(self).batches(),
            final(self).blocks() == old(self).blocks(),
            final(self).original() == old(self).original(),
            final(self).compressed() == old(self).compressed(),
            final(self).latest() == old(self).latest(),
    {
        self.latencies_ms.record(latency_ms);
    }

    /// Number of latency samples kept.
    pub fn latency_samples(&self) -> (n: usize)
        ensures
            n == self.latencies().len(),
    {
        self.latencies_ms.len()
    }

    /// Sum of the latency samples kept.
    pub fn latency_sum(&self) -> (total: u128)
        ensures
            total == samples_sum(self.latencies()),
    {
        self.latencies_ms.sum()
    }

    /// Records when a batch was submitted, replacing an earlier time for the
    /// same batch number.
    pub fn record_submission_time(&mut self, batch_number: u64, time: Instant)
        ensures
            final(self).times() == old(self).times().insert(batch_number, time),
            final(self).latencies() == old(self).latencies(),
            final(self).batches() == old(self).batches(),
            final(self).blocks() == old(self).blocks(),
            final(self).original() == old(self).original(),
            final(self).compressed() == old(self).compressed(),
            final(self).latest() == old(self).latest(),
    {
        self.submission_times.insert(batch_number, time);
    }

    /// Takes out the submission time of a batch, if one was recorded.
    pub fn take_submission_time(&mut self, batch_number: u64) -> (r: Option<Instant>)
        ensures
            final(self).times() == old(self).times().remove(batch_number),
            old(self).times().contains_key(batch_number) ==> r == Some(old(self).times()[batch_number]),
            !old(self).times().contains_key(batch_number) ==> r is None,
            final(self).latencies() == old(self).latencies(),
            final(self).batches() == old(self).batches(),
            final(self).blocks() == old(self).blocks(),
            final(self).original() == old(self).original(),
            final(self).compressed() == old(self).compressed(),
            final(self).latest() == old(self).latest(),
    {
        self.submission_times.remove(&batch_number)
    }

    /// Accounts for a submitted batch of `blocks` blocks, `original` bytes
    /// before and `compressed` bytes after compression, which took
    /// `latency_ms`. Totals past `u64::MAX` overflow and are
    /// ruled out.
    pub fn record_batch(&mut self, blocks: u64, original: u64, compressed: u64, latency_ms: u64)
        requires
            old(self).batches() < u64::MAX,
            old(self).blocks() + blocks <= u64::MAX,
            old(self).original() + original <= u64::MAX,
            old(self).compressed() + compressed <= u64::MAX,
        ensures
            final(self).batches() == old(self).batches() + 1,
            final(self).blocks() == old(self).blocks() + blocks,
            final(self).original() == old(self).original() + original,
            final(self).compressed() == old(self).compressed() + compressed,
            final(self).latest() == old(self).latest(),
            final(self).latencies() == after_latency(old(self).latencies(), latency_ms),
            final(self).times() == old(self).times(),
    {
        self.batches_submitted = self.batches_submitted + 1;
        self.blocks_processed = self.blocks_processed + blocks;
        self.bytes_original = self.bytes_original + original;
        self.bytes_compressed = self.bytes_compressed + compressed;
        self.record_latency(latency_ms);
    }
}

/// Taking the submission time of a batch gives back the time last recorded
/// for it, and leaves no time for it behind.
pub proof fn law_take_returns_recorded_time(times: Map<u64, Instant>, batch_number: u64, time: Instant)
    ensures
        times.insert(batch_number, time).contains_key(batch_number),
        times.insert(batch_number, time)[batch_number] == time,
        !times.insert(batch_number, time).remove(batch_number).contains_key(batch_number),
{
}

/// Assembles the batch to submit: `data` is the compressed payload of blocks
/// numbered `block_numbers`, in order; the first and last block numbers are 0
/// for an empty batch.
pub fn assemble_batch(batch_number: u64, data: Vec<u8>, block_numbers: &Vec<u64>) -> (b: CompressedBatch)
    requires
        block_numbers@.len() <= u64::MAX,
    ensures
        b.batch_number == batch_number,
        b.data@ == data@,
        b.block_count == block_numbers@.len(),
        b.first_block == (if block_numbers@.len() == 0 { 0 } else { block_numbers@[0] }),
        b.last_block == (if block_numbers@.len() == 0 { 0 } else { block_numbers@.last() }),
{
    let n: usize = block_numbers.len();
    let first_block: u64 = if n == 0 { 0 } else { block_numbers[0] };
    let last_block: u64 = if n == 0 { 0 } else { block_numbers[n - 1] };
    CompressedBatch { batch_number, data, block_count: n as u64, first_block, last_block }
}

/// The estimated size of a block with `tx_count` transactions: 256 bytes per
/// transaction.
pub open spec fn estimated_size(tx_count: nat) -> nat {
    tx_count * 256
}

/// Whether a batch of `count` blocks and `size` bytes is due under `config`.
pub open spec fn batch_due(count: nat, size: nat, config: BatchSubmissionConfig) -> bool {
    count >= config.max_blocks_per_batch || size >= config.target_batch_size
}

/// What the runner loop does next after a block was accounted for.
#[derive(Clone, Debug, PartialEq, Eq)]
pub enum RunnerStep {
    /// Submit the pending blocks as the given batch.
    Submit(u64),
    /// Keep accumulating.
    Accumulate,
}

/// Whether a submission outcome stops the runner: a fatal error.
pub open spec fn stops_runner(outcome: Result<(), BatchSubmissionError>) -> bool {
    outcome matches Err(e) && e.fatal()
}

/// The runner over a sequence of submission outcomes, as
/// [`RunnerState::on_batch_outcome`] takes them one by one from batch number
/// `next`: the number the following batch gets, and the error the runner
/// stops with, if any.
pub open spec fn run_outcomes(next: int, outcomes: Seq<Result<(), BatchSubmissionError>>) -> (int, Option<
    BatchSubmissionError,
>)
    decreases outcomes.len(),
{
    if outcomes.len() == 0 {
        (next, None)
    } else if stops_runner(outcomes[0]) {
        (next, Some(outcomes[0]->Err_0))
    } else {
        run_outcomes(next + 1, outcomes.skip(1))
    }
}

/// The runner never ends without an error: it stops only on a fatal error,
/// with that error; while no outcome is fatal it keeps going, and the
/// batches are numbered one after another, failed ones included.
pub proof fn law_runner_stops_only_on_fatal_error(next: int, outcomes: Seq<Result<(), BatchSubmissionError>>)
    ensures
        run_outcomes(next, outcomes).1 matches Some(e) ==> e.fatal(),
        (forall|i: int| 0 <= i < outcomes.len() ==> !stops_runner(#[trigger] outcomes[i])) ==> run_outcomes(
            next,
            outcomes,
        ) == (next + outcomes.len(), None::<BatchSubmissionError>),
    decreases outcomes.len(),
{
    if outcomes.len() > 0 {
        law_runner_stops_only_on_fatal_error(next + 1, outcomes.skip(1));
        if forall|i: int| 0 <= i < outcomes.len() ==> !stops_runner(#[trigger] outcomes[i]) {
            assert(!stops_runner(outcomes[0]));
            assert forall|i: int| 0 <= i < outcomes.skip(1).len() implies !stops_runner(#[trigger] outcomes.skip(1)[i]) by {
                assert(outcomes.skip(1)[i] == outcomes[i + 1]);
            }
        }
    }
}

/// The bookkeeping of the runner loop: the next block to fetch, the next
/// batch number, the blocks pending submission, and whether it is paused.
#[derive(Clone, Debug)]
pub struct RunnerState {
    current_block: u64,
    batch_number: u64,
    pending_blocks: usize,
    pending_size: usize,
    paused: bool,
}

impl RunnerState {
    /// The next block to fetch.
    pub closed spec fn next_block(&self) -> u64 {
        self.current_block
    }

    /// The number the next batch gets.
    pub closed spec fn next_batch(&self) -> u64 {
        self.batch_number
    }

    /// The number of blocks pending submission.
    pub closed spec fn pending(&self) -> nat {
        self.pending_blocks as nat
    }

    /// The estimated size of the blocks pending submission.
    pub closed spec fn pending_bytes(&self) -> nat {
        self.pending_size as nat
    }

    /// Whether the runner is paused.
    pub closed spec fn is_paused_spec(&self) -> bool {
        self.paused
    }

    /// Starts at `start_block`, with batch number 0, nothing pending, running.
    pub fn new(start_block: u64) -> (s: Self)
        ensures
            s.next_block() == start_block,
            s.next_batch() == 0,
            s.pending() == 0,
            s.pending_bytes() == 0,
            !s.is_paused_spec(),
    {
        RunnerState { current_block: start_block, batch_number: 0, pending_blocks: 0, pending_size: 0, paused: false }
    }

    /// The next block to fetch.
    pub fn current_block(&self) -> (n: u64)
        ensures
            n == self.next_block(),
    {
        self.current_block
    }

    /// Number of blocks pending submission.
    pub fn pending_count(&self) -> (n: usize)
        ensures
            n == self.pending(),
    {
        self.pending_blocks
    }

    /// Estimated size of the blocks pending submission.
    pub fn pending_size(&self) -> (n: usize)
        ensures
            n == self.pending_bytes(),
    {
        self.pending_size
    }

    /// Pauses the runner.
    pub fn pause(&mut self)
        ensures
            final(self).is_paused_spec(),
            final(self).next_block() == old(self).next_block(),
            final(self).next_batch() == old(self).next_batch(),
            final(self).pending() == old(self).pending(),
            final(self).pending_bytes() == old(self).pending_bytes(),
    {
        self.paused = true;
    }

    /// Resumes the runner.
    pub fn resume(&mut self)
        ensures
            !final(self).is_paused_spec(),
            final(self).next_block() == old(self).next_block(),
            final(self).next_batch() == old(self).next_batch(),
            final(self).pending() == old(self).pending(),
            final(self).pending_bytes() == old(self).pending_bytes(),
    {
        self.paused = false;
    }

    /// Whether the runner is paused.
    pub fn is_paused(&self) -> (r: bool)
        ensures
            r == self.is_paused_spec(),
    {
        self.paused
    }

    /// Flips the pause state.
    pub fn toggle_pause(&mut self)
        ensures
            final(self).is_paused_spec() == !old(self).is_paused_spec(),
            final(self).next_block() == old(self).next_block(),
            final(self).next_batch() == old(self).next_batch(),
            final(self).pending() == old(self).pending(),
            final(self).pending_bytes() == old(self).pending_bytes(),
    {
        self.paused = !self.paused;
    }

    /// A block with `tx_count` transactions was fetched: it joins the pending
    /// blocks with its estimated size, and the batch is due once the pending
    /// blocks reach the block limit or the target size. A size past
    /// `usize::MAX` overflows and is ruled out.
    pub fn on_block_fetched(&mut self, tx_count: usize, config: &BatchSubmissionConfig) -> (step: RunnerStep)
        requires
            old(self).pending() + 1 <= usize::MAX,
            old(self).pending_bytes() + estimated_size(tx_count as nat) <= usize::MAX,
        ensures
            final(self).pending() == old(self).pending() + 1,
            final(self).pending_bytes() == old(self).pending_bytes() + estimated_size(tx_count as nat),
            final(self).next_block() == old(self).next_block(),
            final(self).next_batch() == old(self).next_batch(),
            final(self).is_paused_spec() == old(self).is_paused_spec(),
            step == (if batch_due(final(self).pending(), final(self).pending_bytes(), *config) {
                RunnerStep::Submit(old(self).next_batch())
            } else {
                RunnerStep::Accumulate
            }),
    {
        let size: usize = tx_count * 256;
        self.pending_blocks = self.pending_blocks + 1;
        self.pending_size = self.pending_size + size;
        if self.pending_blocks >= config.max_blocks_per_batch || self.pending_size >= config.target_batch_size {
            RunnerStep::Submit(self.batch_number)
        } else {
            RunnerStep::Accumulate
        }
    }

    /// The due batch was handed to the sink with the given outcome. A fatal
    /// error stops the runner and is handed back, with the state unchanged;
    /// on success or any other error the batch number moves on and the
    /// pending blocks are dropped.
    pub fn on_batch_outcome(&mut self, outcome: Result<(), BatchSubmissionError>) -> (r: Result<
        (),
        BatchSubmissionError,
    >)
        requires
            old(self).next_batch() < u64::MAX,
        ensures
            (outcome matches Err(e) && e.fatal()) ==> (r == outcome && *final(self) == *old(self)),
            !(outcome matches Err(e) && e.fatal()) ==> {
                &&& r is Ok
                &&& final(self).next_batch() == old(self).next_batch() + 1
                &&& final(self).pending() == 0
                &&& final(self).pending_bytes() == 0
                &&& final(self).next_block() == old(self).next_block()
                &&& final(self).is_paused_spec() == old(self).is_paused_spec()
            },
    {
        match outcome {
            Err(e) => {
                if e.is_fatal() {
                    return Err(e);
                }
            },
            Ok(()) => {},
        }
        self.batch_number = self.batch_number + 1;
        self.pending_blocks = 0;
        self.pending_size = 0;
        Ok(())
    }

    /// The fetched block is done: the runner moves to the next block, which
    /// the metrics record as the latest.
    pub fn on_block_done(&mut self, metrics: &mut BatchSubmissionMetrics)
        requires
            old(self).next_block() < u64::MAX,
        ensures
            final(self).next_block() == old(self).next_block() + 1,
            final(self).next_batch() == old(self).next_batch(),
            final(self).pending() == old(self).pending(),
            final(self).pending_bytes() == old(self).pending_bytes(),
            final(self).is_paused_spec() == old(self).is_paused_spec(),
            final(metrics).latest() == final(self).next_block(),
            final(metrics).batches() == old(metrics).batches(),
            final(metrics).blocks() == old(metrics).blocks(),
            final(metrics).original() == old(metrics).original(),
            final(metrics).compressed() == old(metrics).compressed(),
            final(metrics).latencies() == old(metrics).latencies(),
            final(metrics).times() == old(metrics).times(),
    {
        self.current_block = self.current_block + 1;
        metrics.latest_block = self.current_block;
    }
}

/// RPC block source for fetching L2 blocks from an RPC endpoint.
pub struct RpcBlockSource<P> {
    /// The provider for RPC calls.
    provider: P,
    /// The RPC URL (for debugging).
    url: String,
}

impl<P> RpcBlockSource<P> {
    /// The provider.
    pub closed spec fn provider_spec(&self) -> P {
        self.provider
    }

    /// The RPC URL.
    pub closed spec fn url_spec(&self) -> Seq<char> {
        self.url@
    }

    /// Creates a source over the given provider, remembering its URL.
    pub fn new(provider: P, url: String) -> (s: Self)
        ensures
            s.provider_spec() == provider,
            s.url_spec() == url@,
    {
        RpcBlockSource { provider, url }
    }

    /// The provider.
    pub fn provider(&self) -> (p: &P)
        ensures
            *p == self.provider_spec(),
    {
        &self.provider
    }

    /// The RPC URL.
    pub fn url(&self) -> (u: &str)
        ensures
            u@ == self.url_spec(),
    {
        self.url.as_str()
    }
}

} // verus!
