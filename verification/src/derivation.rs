//! The derivation runner: its configuration, errors, metrics, and the
//! bookkeeping that turns each derived batch into a range of finalized L2
//! blocks.

use vstd::prelude::*;
use std::collections::HashMap;
use std::time::Instant;
use core::time::Duration;
use crate::latency::{LatencyWindow, after_latency, samples_sum};
use crate::pipeline::CompressionError;
use crate::text::{decimal, join2, join4, u64_decimal};

verus! {

broadcast use vstd::std_specs::hash::group_hash_axioms;

/// Derivation runner configuration.
#[derive(Clone, Debug)]
pub struct DerivationConfig {
    /// Poll interval for checking new batches in milliseconds (default: 100ms).
    pub poll_interval_ms: u64,
}

impl DerivationConfig {
    /// Creates a builder that starts from the default configuration.
    pub fn builder() -> (b: DerivationConfigBuilder)
        ensures
            b.config() == (DerivationConfig { poll_interval_ms: 100 }),
    {
        DerivationConfigBuilder::default()
    }
}

impl Default for DerivationConfig {
    /// A poll interval of 100 ms.
    fn default() -> (c: Self)
        ensures
            c == (DerivationConfig { poll_interval_ms: 100 }),
    {
        DerivationConfig { poll_interval_ms: 100 }
    }
}

/// Builder for [`DerivationConfig`].
#[derive(Clone, Debug)]
pub struct DerivationConfigBuilder {
    poll_interval_ms: u64,
}

impl DerivationConfigBuilder {
    /// The configuration the builder will build.
    pub closed spec fn config(&self) -> DerivationConfig {
        DerivationConfig { poll_interval_ms: self.poll_interval_ms }
    }

    /// Sets the poll interval in milliseconds.
    pub fn poll_interval_ms(self, poll_interval_ms: u64) -> (b: Self)
        ensures
            b.config() == (DerivationConfig { poll_interval_ms }),
    {
        DerivationConfigBuilder { poll_interval_ms }
    }

    /// Builds the [`DerivationConfig`].
    pub fn build(self) -> (c: DerivationConfig)
        ensures
            c == self.config(),
    {
        DerivationConfig { poll_interval_ms: self.poll_interval_ms }
    }
}

impl Default for DerivationConfigBuilder {
    /// A builder holding the default configuration.
    fn default() -> (b: Self)
        ensures
            b.config() == (DerivationConfig { poll_interval_ms: 100 }),
    {
        let d = DerivationConfig::default();
        DerivationConfigBuilder { poll_interval_ms: d.poll_interval_ms }
    }
}

/// Derivation errors.
#[derive(Clone, Debug)]
pub enum DerivationError {
    /// Batch source error.
    SourceError(String),
    /// Decompression failed.
    DecompressionFailed(String),
    /// No batch available from source.
    EmptyBatch,
    /// Pipeline error.
    Pipeline(String),
    /// Checkpoint or other internal error.
    InternalError(String),
    /// Block execution failed.
    ExecutionFailed(String),
}

impl DerivationError {
    /// Retryable errors: a source error or no batch available.
    pub open spec fn retryable(&self) -> bool {
        self is SourceError || self is EmptyBatch
    }

    /// Fatal errors: a failed decompression or execution.
    pub open spec fn fatal(&self) -> bool {
        self is DecompressionFailed || self is ExecutionFailed
    }

    /// Whether the error is retryable: a source error or no batch available.
    pub fn is_retryable(&self) -> (r: bool)
        ensures
            r == self.retryable(),
    {
        match self {
            DerivationError::SourceError(_) | DerivationError::EmptyBatch => true,
            _ => false,
        }
    }

    /// Whether the error is fatal: a failed decompression or execution.
    pub fn is_fatal(&self) -> (r: bool)
        ensures
            r == self.fatal(),
    {
        match self {
            DerivationError::DecompressionFailed(_) | DerivationError::ExecutionFailed(_) => true,
            _ => false,
        }
    }

    /// The error's message.
    pub open spec fn message(&self) -> Seq<char> {
        match self {
            DerivationError::SourceError(m) => "Batch source error: "@ + m@,
            DerivationError::DecompressionFailed(m) => "Decompression failed: "@ + m@,
            DerivationError::EmptyBatch => "No batch available"@,
            DerivationError::Pipeline(m) => "Pipeline error: "@ + m@,
            DerivationError::InternalError(m) => "Internal error: "@ + m@,
            DerivationError::ExecutionFailed(m) => "Execution failed: "@ + m@,
        }
    }

    /// Renders the error's message.
    pub fn to_string(&self) -> (s: String)
        ensures
            s@ == self.message(),
    {
        match self {
            DerivationError::SourceError(m) => join2("Batch source error: ", m.as_str()),
            DerivationError::DecompressionFailed(m) => join2("Decompression failed: ", m.as_str()),
            DerivationError::EmptyBatch => String::from_str("No batch available"),
            DerivationError::Pipeline(m) => join2("Pipeline error: ", m.as_str()),
            DerivationError::InternalError(m) => join2("Internal error: ", m.as_str()),
            DerivationError::ExecutionFailed(m) => join2("Execution failed: ", m.as_str()),
        }
    }

    /// The error for a batch that failed to decompress, with the cause.
    pub fn decompression(batch_number: u64, cause: &str) -> (e: Self)
        ensures
            e == DerivationError::DecompressionFailed(e->DecompressionFailed_0),
            e->DecompressionFailed_0@ == "Failed to decompress batch #"@ + decimal(batch_number as nat) + ": "@
                + cause@,
    {
        DerivationError::DecompressionFailed(
            join4("Failed to decompress batch #", u64_decimal(batch_number).as_str(), ": ", cause),
        )
    }

    /// The error for a batch whose payload failed to execute, with the cause.
    pub fn execution(batch_number: u64, cause: &str) -> (e: Self)
        ensures
            e == DerivationError::ExecutionFailed(e->ExecutionFailed_0),
            e->ExecutionFailed_0@ == "Failed to execute payload for batch #"@ + decimal(batch_number as nat)
                + ": "@ + cause@,
    {
        DerivationError::ExecutionFailed(
            join4("Failed to execute payload for batch #", u64_decimal(batch_number).as_str(), ": ", cause),
        )
    }

    /// The error for a checkpoint that could not be recorded, with the cause.
    pub fn checkpoint(cause: &str) -> (e: Self)
        ensures
            e == DerivationError::ExecutionFailed(e->ExecutionFailed_0),
            e->ExecutionFailed_0@ == "Checkpoint error: "@ + cause@,
    {
        DerivationError::ExecutionFailed(join2("Checkpoint error: ", cause))
    }
}

/// No derivation error is both retryable and fatal.
pub proof fn law_derivation_error_not_retryable_and_fatal(e: DerivationError)
    ensures
        !(e.retryable() && e.fatal()),
{
}

/// Derivation metrics for observability.
#[derive(Clone, Debug, Default)]
pub struct DerivationMetrics {
    /// Total batches derived.
    pub batches_derived: u64,
    /// Total L2 blocks derived.
    pub blocks_derived: u64,
    /// Total bytes decompressed.
    pub bytes_decompressed: u64,
    /// The batch number of the most recently derived batch.
    pub current_batch_number: u64,
    /// Number of blocks in the most recently derived batch.
    pub blocks_in_current_batch: u64,
    /// First block number in the most recently derived batch.
    pub first_block_in_batch: u64,
    /// Last block number in the most recently derived batch (same as finalized head).
    pub last_block_in_batch: u64,
    /// Derivation latencies in milliseconds, oldest first.
    latencies_ms: LatencyWindow,
}

impl DerivationMetrics {
    /// Total batches derived.
    pub closed spec fn batches(&self) -> u64 {
        self.batches_derived
    }

    /// Total L2 blocks derived.
    pub closed spec fn blocks(&self) -> u64 {
        self.blocks_derived
    }

    /// Total bytes decompressed.
    pub closed spec fn bytes(&self) -> u64 {
        self.bytes_decompressed
    }

    /// The batch number of the most recently derived batch.
    pub closed spec fn current_batch(&self) -> u64 {
        self.current_batch_number
    }

    /// Number of blocks in the most recently derived batch.
    pub closed spec fn blocks_in_batch(&self) -> u64 {
        self.blocks_in_current_batch
    }

    /// First block number in the most recently derived batch.
    pub closed spec fn first_block(&self) -> u64 {
        self.first_block_in_batch
    }

    /// Last block number in the most recently derived batch.
    pub closed spec fn last_block(&self) -> u64 {
        self.last_block_in_batch
    }

    /// The latency samples kept, oldest first.
    pub closed spec fn latencies(&self) -> Seq<u64> {
        self.latencies_ms@
    }

    /// Creates metrics with every counter at zero and no latency sample.
    pub fn new() -> (m: Self)
        ensures
            m.batches() == 0,
            m.blocks() == 0,
            m.bytes() == 0,
            m.current_batch() == 0,
            m.blocks_in_batch() == 0,
            m.first_block() == 0,
            m.last_block() == 0,
            m.latencies() == Seq::<u64>::empty(),
    {
        DerivationMetrics {
            batches_derived: 0,
            blocks_derived: 0,
            bytes_decompressed: 0,
            current_batch_number: 0,
            blocks_in_current_batch: 0,
            first_block_in_batch: 0,
            last_block_in_batch: 0,
            latencies_ms: LatencyWindow::new(),
        }
    }

    /// Records a derivation latency sample, keeping the last hundred.
    pub fn record_latency(&mut self, latency_ms: u64)
        ensures
            final(self).latencies() == after_latency(old(self).latencies(), latency_ms),
            final(self).batches() == old(self).batches(),
            final(self).blocks() == old(self).blocks(),
            final(self).bytes() == old(self).bytes(),
            final(self).current_batch() == old(self).current_batch(),
            final(self).blocks_in_batch() == old(self).blocks_in_batch(),
            final(self).first_block() == old(self).first_block(),
            final(self).last_block() == old(self).last_block(),
    {
        self.latencies_ms.record(latency_ms);
    }

    /// Number of latency samples kept.
    pub fn latency_samples(&self) -> (n: usize)
        ensures
            n == self.latencies().len(),
    {
        self.latencies_ms.len()
    }

    /// Sum of the latency samples kept.
    pub fn latency_sum(&self) -> (total: u128)
        ensures
            total == samples_sum(self.latencies()),
    {
        self.latencies_ms.sum()
    }
}

/// The decompressed payload of batch `batch_number`, or the error for a
/// payload the compressor could not read, with the compressor's message.
pub fn decompression_step(batch_number: u64, r: Result<Vec<u8>, CompressionError>) -> (s: Result<Vec<u8>, DerivationError>)
    ensures
        match r {
            Ok(v) => s matches Ok(w) && w@ == v@,
            Err(e) => s matches Err(DerivationError::DecompressionFailed(t)) && t@ == "Failed to decompress batch #"@
                + decimal(batch_number as nat) + ": "@ + e.message(),
        },
{
    match r {
        Ok(v) => Ok(v),
        Err(e) => Err(DerivationError::decompression(batch_number, e.to_string().as_str())),
    }
}

/// Success of executing the payload of batch `batch_number`, or the error
/// for a payload the executor refused, with the executor's message.
pub fn execution_step(batch_number: u64, r: Result<(), String>) -> (s: Result<(), DerivationError>)
    ensures
        match r {
            Ok(()) => s is Ok,
            Err(m) => s matches Err(DerivationError::ExecutionFailed(t)) && t@
                == "Failed to execute payload for batch #"@ + decimal(batch_number as nat) + ": "@ + m@,
        },
{
    match r {
        Ok(()) => Ok(()),
        Err(m) => Err(DerivationError::execution(batch_number, m.as_str())),
    }
}

/// The time from `earlier` to `later` that std's `Instant::duration_since`
/// gives for two instants: a function of the two instants alone.
pub uninterp spec fn instant_gap(later: Instant, earlier: Instant) -> Duration;

/// The whole milliseconds that std's `Duration::as_millis` gives for a
/// duration.
pub uninterp spec fn whole_millis(d: Duration) -> u128;

/// std's `Instant::duration_since`, which saturates at zero where `earlier`
/// is the later instant.
#[verifier::external_body]
pub(crate) fn duration_between(later: &Instant, earlier: &Instant) -> (d: Duration)
    ensures
        d == instant_gap(*later, *earlier),
{
    later.duration_since(*earlier)
}

/// std's `Duration::as_millis`.
#[verifier::external_body]
fn duration_millis(d: Duration) -> (m: u128)
    ensures
        m == whole_millis(d),
{
    d.as_millis()
}

/// The latency sample for a batch submitted at `submitted` and derived at
/// `derived`: the whole milliseconds between them, truncated to `u64`.
pub open spec fn latency_sample(derived: Instant, submitted: Instant) -> u64 {
    whole_millis(instant_gap(derived, submitted)) as u64
}

/// The latency sample between two instants, in whole milliseconds
/// truncated to `u64`.
fn millis_between(later: &Instant, earlier: &Instant) -> (m: u64)
    ensures
        m == latency_sample(*later, *earlier),
{
    let d = duration_between(later, earlier);
    let ms: u128 = duration_millis(d);
    ms as u64
}

/// The blocks a derived batch stands for: the count recorded for it, or one
/// where none was recorded.
pub open spec fn blocks_for(counts: Map<u64, u64>, batch_number: u64) -> u64 {
    if counts.contains_key(batch_number) { counts[batch_number] } else { 1 }
}

/// A block count recorded for a batch is the count its derivation uses,
/// whatever was recorded for it before, and it is dropped once used.
pub proof fn law_recorded_block_count_is_used(counts: Map<u64, u64>, batch_number: u64, block_count: u64)
    ensures
        blocks_for(counts.insert(batch_number, block_count), batch_number) == block_count,
        blocks_for(counts.insert(batch_number, block_count).remove(batch_number), batch_number) == 1,
{
}

/// The bookkeeping of the derivation runner: the finalized L2 head, the
/// block counts and submission times recorded for batches not derived yet,
/// the last batch derived, and whether it is paused.
#[derive(Debug)]
pub struct DerivationState {
    last_finalized_block: u64,
    batch_block_counts: HashMap<u64, u64>,
    submission_times: HashMap<u64, Instant>,
    last_batch_derived: u64,
    paused: bool,
}

impl DerivationState {
    /// The last finalized L2 block.
    pub closed spec fn finalized(&self) -> u64 {
        self.last_finalized_block
    }

    /// Block counts recorded for batches, by batch number.
    pub closed spec fn counts(&self) -> Map<u64, u64> {
        self.batch_block_counts@
    }

    /// Submission times recorded for batches, by batch number.
    pub closed spec fn times(&self) -> Map<u64, Instant> {
        self.submission_times@
    }

    /// The last batch derived; 0 while none has been.
    pub closed spec fn last_derived(&self) -> u64 {
        self.last_batch_derived
    }

    /// Whether the runner is paused.
    pub closed spec fn is_paused_spec(&self) -> bool {
        self.paused
    }

    /// Starts with the finalized head at `start_block`, nothing recorded and
    /// no batch derived, running.
    pub fn with_start_block(start_block: u64) -> (s: Self)
        ensures
            s.finalized() == start_block,
            s.counts() == Map::<u64, u64>::empty(),
            s.times() == Map::<u64, Instant>::empty(),
            s.last_derived() == 0,
            !s.is_paused_spec(),
    {
        DerivationState {
            last_finalized_block: start_block,
            batch_block_counts: HashMap::new(),
            submission_times: HashMap::new(),
            last_batch_derived: 0,
            paused: false,
        }
    }

    /// Starts with the finalized head at block 0.
    pub fn new() -> (s: Self)
        ensures
            s.finalized() == 0,
            s.counts() == Map::<u64, u64>::empty(),
            s.times() == Map::<u64, Instant>::empty(),
            s.last_derived() == 0,
            !s.is_paused_spec(),
    {
        Self::with_start_block(0)
    }

    /// Resumes from a checkpoint that records `last_batch_derived`.
    pub fn resume_from(&mut self, last_batch_derived: u64)
        ensures
            final(self).last_derived() == last_batch_derived,
            final(self).finalized() == old(self).finalized(),
            final(self).counts() == old(self).counts(),
            final(self).times() == old(self).times(),
            final(self).is_paused_spec() == old(self).is_paused_spec(),
    {
        self.last_batch_derived = last_batch_derived;
    }

    /// Pauses the runner.
    pub fn pause(&mut self)
        ensures
            final(self).is_paused_spec(),
            final(self).finalized() == old(self).finalized(),
            final(self).counts() == old(self).counts(),
            final(self).times() == old(self).times(),
            final(self).last_derived() == old(self).last_derived(),
    {
        self.paused = true;
    }

    /// Resumes the runner.
    pub fn resume(&mut self)
        ensures
            !final(self).is_paused_spec(),
            final(self).finalized() == old(self).finalized(),
            final(self).counts() == old(self).counts(),
            final(self).times() == old(self).times(),
            final(self).last_derived() == old(self).last_derived(),
    {
        self.paused = false;
    }

    /// Whether the runner is paused.
    pub fn is_paused(&self) -> (r: bool)
        ensures
            r == self.is_paused_spec(),
    {
        self.paused
    }

    /// Flips the pause state.
    pub fn toggle_pause(&mut self)
        ensures
            final(self).is_paused_spec() == !old(self).is_paused_spec(),
            final(self).finalized() == old(self).finalized(),
            final(self).counts() == old(self).counts(),
            final(self).times() == old(self).times(),
            final(self).last_derived() == old(self).last_derived(),
    {
        self.paused = !self.paused;
    }

    /// Whether a batch was derived already: while no batch has been derived
    /// (the last derived is 0) nothing is skipped, after that every batch up
    /// to the last derived is.
    pub fn should_skip_batch(&self, batch_number: u64) -> (r: bool)
        ensures
            r == (self.last_derived() != 0 && batch_number <= self.last_derived()),
    {
        if self.last_batch_derived == 0 {
            false
        } else {
            batch_number <= self.last_batch_derived
        }
    }

    /// Records that a batch was derived.
    pub fn record_batch_derived(&mut self, batch_number: u64)
        ensures
            final(self).last_derived() == batch_number,
            final(self).finalized() == old(self).finalized(),
            final(self).counts() == old(self).counts(),
            final(self).times() == old(self).times(),
            final(self).is_paused_spec() == old(self).is_paused_spec(),
    {
        self.last_batch_derived = batch_number;
    }

    /// Records when a batch was submitted, for latency tracking.
    pub fn record_submission(&mut self, batch_number: u64, submit_time: Instant)
        ensures
            final(self).times() == old(self).times().insert(batch_number, submit_time),
            final(self).finalized() == old(self).finalized(),
            final(self).counts() == old(self).counts(),
            final(self).last_derived() == old(self).last_derived(),
            final(self).is_paused_spec() == old(self).is_paused_spec(),
    {
        self.submission_times.insert(batch_number, submit_time);
    }

    /// Records how many blocks a submitted batch holds.
    pub fn record_batch_block_count(&mut self, batch_number: u64, block_count: u64)
        ensures
            final(self).counts() == old(self).counts().insert(batch_number, block_count),
            final(self).finalized() == old(self).finalized(),
            final(self).times() == old(self).times(),
            final(self).last_derived() == old(self).last_derived(),
            final(self).is_paused_spec() == old(self).is_paused_spec(),
    {
        self.batch_block_counts.insert(batch_number, block_count);
    }

    /// The blocks a batch stands for once derived: the count recorded for
    /// it, or one where none was recorded.
    pub fn recorded_blocks(&self, batch_number: u64) -> (n: u64)
        ensures
            n == blocks_for(self.counts(), batch_number),
    {
        match self.batch_block_counts.get(&batch_number) {
            Some(n) => *n,
            None => 1,
        }
    }

    /// The last finalized L2 block.
    pub fn last_finalized_block(&self) -> (n: u64)
        ensures
            n == self.finalized(),
    {
        self.last_finalized_block
    }

    /// Accounts for a derived batch whose payload decompressed to
    /// `decompressed_size` bytes, at `derive_time`: the blocks recorded for
    /// the batch (one if none were) follow the finalized head, which moves to
    /// the last of them; the metrics count the batch, its blocks and bytes
    /// and describe its block range; a recorded submission time gives a
    /// latency sample. The batch's recorded count and time are dropped.
    /// Totals past `u64::MAX` overflow and are ruled out.
    pub fn apply_derived_batch(
        &mut self,
        batch_number: u64,
        decompressed_size: usize,
        derive_time: &Instant,
        metrics: &mut DerivationMetrics,
    )
        requires
            old(self).finalized() < u64::MAX,
            old(self).finalized() + blocks_for(old(self).counts(), batch_number) <= u64::MAX,
            old(metrics).batches() < u64::MAX,
            old(metrics).blocks() + blocks_for(old(self).counts(), batch_number) <= u64::MAX,
            old(metrics).bytes() + decompressed_size <= u64::MAX,
        ensures
            ({
                let blocks = blocks_for(old(self).counts(), batch_number);
                &&& final(self).finalized() == old(self).finalized() + blocks
                &&& final(self).counts() == old(self).counts().remove(batch_number)
                &&& final(self).times() == old(self).times().remove(batch_number)
                &&& final(self).last_derived() == old(self).last_derived()
                &&& final(self).is_paused_spec() == old(self).is_paused_spec()
                &&& final(metrics).batches() == old(metrics).batches() + 1
                &&& final(metrics).blocks() == old(metrics).blocks() + blocks
                &&& final(metrics).bytes() == old(metrics).bytes() + decompressed_size
                &&& final(metrics).current_batch() == batch_number
                &&& final(metrics).blocks_in_batch() == blocks
                &&& final(metrics).first_block() == old(self).finalized() + 1
                &&& final(metrics).last_block() == old(self).finalized() + blocks
                &&& final(metrics).last_block() == final(self).finalized()
                &&& old(self).times().contains_key(batch_number) ==> final(metrics).latencies() == after_latency(
                    old(metrics).latencies(),
                    latency_sample(*derive_time, old(self).times()[batch_number]),
                )
                &&& !old(self).times().contains_key(batch_number) ==> final(metrics).latencies()
                    == old(metrics).latencies()
            }),
    {
        let ghost old_latencies = metrics.latencies();
        let blocks_in_batch: u64 = match self.batch_block_counts.remove(&batch_number) {
            Some(n) => n,
            None => 1,
        };
        let first_block: u64 = self.last_finalized_block + 1;
        let last_block: u64 = self.last_finalized_block + blocks_in_batch;
        self.last_finalized_block = last_block;

        metrics.batches_derived = metrics.batches_derived + 1;
        metrics.blocks_derived = metrics.blocks_derived + blocks_in_batch;
        metrics.bytes_decompressed = metrics.bytes_decompressed + decompressed_size as u64;
        metrics.current_batch_number = batch_number;
        metrics.blocks_in_current_batch = blocks_in_batch;
        metrics.first_block_in_batch = first_block;
        metrics.last_block_in_batch = last_block;

        match self.submission_times.remove(&batch_number) {
            Some(submit_time) => {
                let latency_ms: u64 = millis_between(derive_time, &submit_time);
                metrics.record_latency(latency_ms);
                assert(metrics.latencies() == after_latency(old_latencies, latency_ms));
            },
            None => {},
        }
    }

    /// The last step of deriving batch `batch_number`, once its payload
    /// decompressed to `decompressed_size` bytes and the executor ran it:
    /// a refused payload is the execution error and changes nothing; an
    /// executed one records the batch as derived and accounts for it as
    /// [`DerivationState::apply_derived_batch`] does. Totals past `u64::MAX`
    /// overflow and are ruled out.
    pub fn complete_derivation(
        &mut self,
        batch_number: u64,
        decompressed_size: usize,
        executed: Result<(), String>,
        derive_time: &Instant,
        metrics: &mut DerivationMetrics,
    ) -> (r: Result<(), DerivationError>)
        requires
            executed is Ok ==> {
                &&& old(self).finalized() < u64::MAX
                &&& old(self).finalized() + blocks_for(old(self).counts(), batch_number) <= u64::MAX
                &&& old(metrics).batches() < u64::MAX
                &&& old(metrics).blocks() + blocks_for(old(self).counts(), batch_number) <= u64::MAX
                &&& old(metrics).bytes() + decompressed_size <= u64::MAX
            },
        ensures
            executed matches Err(m) ==> r matches Err(DerivationError::ExecutionFailed(t)) && t@
                == "Failed to execute payload for batch #"@ + decimal(batch_number as nat) + ": "@ + m@
                && *final(self) == *old(self) && *final(metrics) == *old(metrics),
            executed is Ok ==> r is Ok && {
                let blocks = blocks_for(old(self).counts(), batch_number);
                &&& final(self).last_derived() == batch_number
                &&& final(self).finalized() == old(self).finalized() + blocks
                &&& final(self).counts() == old(self).counts().remove(batch_number)
                &&& final(self).times() == old(self).times().remove(batch_number)
                &&& final(self).is_paused_spec() == old(self).is_paused_spec()
                &&& final(metrics).batches() == old(metrics).batches() + 1
                &&& final(metrics).blocks() == old(metrics).blocks() + blocks
                &&& final(metrics).bytes() == old(metrics).bytes() + decompressed_size
                &&& final(metrics).current_batch() == batch_number
                &&& final(metrics).blocks_in_batch() == blocks
                &&& final(metrics).first_block() == old(self).finalized() + 1
                &&& final(metrics).last_block() == old(self).finalized() + blocks
                &&& old(self).times().contains_key(batch_number) ==> final(metrics).latencies() == after_latency(
                    old(metrics).latencies(),
                    latency_sample(*derive_time, old(self).times()[batch_number]),
                )
                &&& !old(self).times().contains_key(batch_number) ==> final(metrics).latencies()
                    == old(metrics).latencies()
            },
    {
        match execution_step(batch_number, executed) {
            Err(e) => Err(e),
            Ok(()) => {
                self.record_batch_derived(batch_number);
                self.apply_derived_batch(batch_number, decompressed_size, derive_time, metrics);
                Ok(())
            },
        }
    }
}

} // verus!
