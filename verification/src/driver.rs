//! The batch driver: decides when pending L2 blocks are cut into a batch.

use vstd::prelude::*;
use std::collections::VecDeque;
use std::time::Instant;
use core::time::Duration;
use crate::derivation::{duration_between, instant_gap};
use crate::batcher::{secs_duration, BatcherConfig, BatcherError, BatcherMetrics, BatcherState};
use crate::pipeline::{CompressedBatch, SubmissionReceipt};
use crate::pipeline::{Bytes, L2BlockData};

verus! {

broadcast use vstd::std_specs::vecdeque::group_vec_dequeue_axioms;

/// std's `Instant`, a point in monotonic time.
#[verifier::external_type_specification]
#[verifier::external_body]
pub struct ExInstant(Instant);

/// std's `Instant::now`; nothing is stated of the time it returns.
#[verifier::external_body]
pub(crate) fn instant_now() -> Instant {
    Instant::now()
}

/// std's `Instant::elapsed`: the time from `since` to the instant the clock
/// reads now, which is not stated.
#[verifier::external_body]
fn elapsed_since(since: &Instant) -> (d: Duration)
    ensures
        exists|now: Instant| d == instant_gap(now, *since),
{
    since.elapsed()
}

/// Whether a duration is at least another, as std's `>=` on `Duration`
/// compares them: a function of the two durations alone.
pub uninterp spec fn duration_ge(d: Duration, bound: Duration) -> bool;

/// std's `>=` on `Duration`. A duration is never negative, so every
/// duration is at least the zero duration that `Duration::from_secs(0)`
/// builds.
#[verifier::external_body]
fn duration_at_least(d: Duration, bound: Duration) -> (r: bool)
    ensures
        r == duration_ge(d, bound),
        bound == secs_duration(0) ==> r,
{
    d >= bound
}

/// Total length of a sequence of raw transactions.
pub open spec fn tx_bytes(txs: Seq<Bytes>) -> nat
    decreases txs.len(),
{
    if txs.len() == 0 {
        0
    } else {
        tx_bytes(txs.drop_last()) + txs.last()@.len()
    }
}

/// Size of a block: the total length of its transactions.
pub open spec fn block_size(block: L2BlockData) -> nat {
    tx_bytes(block.transactions@)
}

/// Total size of a sequence of blocks.
pub open spec fn blocks_size(blocks: Seq<L2BlockData>) -> nat
    decreases blocks.len(),
{
    if blocks.len() == 0 {
        0
    } else {
        blocks_size(blocks.drop_last()) + block_size(blocks.last())
    }
}

/// Sizes add up over concatenation.
pub proof fn lemma_blocks_size_concat(a: Seq<L2BlockData>, b: Seq<L2BlockData>)
    ensures
        blocks_size(a + b) == blocks_size(a) + blocks_size(b),
    decreases b.len(),
{
    if b.len() == 0 {
        assert(a + b =~= a);
    } else {
        lemma_blocks_size_concat(a, b.drop_last());
        assert((a + b).drop_last() =~= a + b.drop_last());
    }
}

proof fn lemma_blocks_size_push(a: Seq<L2BlockData>, x: L2BlockData)
    ensures
        blocks_size(a.push(x)) == blocks_size(a) + block_size(x),
{
    assert(a.push(x).drop_last() =~= a);
}

proof fn lemma_blocks_size_split(s: Seq<L2BlockData>, n: int)
    requires
        0 <= n <= s.len(),
    ensures
        blocks_size(s) == blocks_size(s.take(n)) + blocks_size(s.skip(n)),
{
    lemma_blocks_size_concat(s.take(n), s.skip(n));
    assert(s.take(n) + s.skip(n) =~= s);
}

/// The size of one block, the sum of its transactions' lengths. A block
/// larger than `usize::MAX` overflows and is ruled out.
pub fn block_size_of(block: &L2BlockData) -> (n: usize)
    requires
        block_size(*block) <= usize::MAX,
    ensures
        n == block_size(*block),
{
    let mut total: usize = 0;
    let mut i: usize = 0;
    while i < block.transactions.len()
        invariant
            i <= block.transactions@.len(),
            total == tx_bytes(block.transactions@.take(i as int)),
            block_size(*block) <= usize::MAX,
        decreases block.transactions@.len() - i,
    {
        proof {
            let t = block.transactions@;
            assert(t.take(i + 1).drop_last() =~= t.take(i as int));
            lemma_tx_bytes_prefix_le(t, i + 1);
        }
        total = total + block.transactions[i].len();
        i += 1;
    }
    assert(block.transactions@.take(i as int) =~= block.transactions@);
    total
}

proof fn lemma_tx_bytes_prefix_le(t: Seq<Bytes>, n: int)
    requires
        0 <= n <= t.len(),
    ensures
        tx_bytes(t.take(n)) <= tx_bytes(t),
    decreases t.len(),
{
    if n == t.len() {
        assert(t.take(n) =~= t);
    } else {
        lemma_tx_bytes_prefix_le(t.drop_last(), n);
        assert(t.drop_last().take(n) =~= t.take(n));
    }
}

/// Total size of the blocks in a vector. A total above `usize::MAX`
/// overflows and is ruled out.
fn blocks_size_of_vec(blocks: &Vec<L2BlockData>) -> (n: usize)
    requires
        blocks_size(blocks@) <= usize::MAX,
    ensures
        n == blocks_size(blocks@),
{
    let mut total: usize = 0;
    let mut i: usize = 0;
    while i < blocks.len()
        invariant
            i <= blocks@.len(),
            total == blocks_size(blocks@.take(i as int)),
            blocks_size(blocks@) <= usize::MAX,
        decreases blocks@.len() - i,
    {
        proof {
            let s = blocks@;
            assert(s.take(i + 1).drop_last() =~= s.take(i as int));
            lemma_blocks_size_split(s, i + 1);
        }
        total = total + block_size_of(&blocks[i]);
        i += 1;
    }
    assert(blocks@.take(i as int) =~= blocks@);
    total
}

/// Total size of the blocks in a queue. A total above `usize::MAX`
/// overflows and is ruled out.
fn blocks_size_of_queue(blocks: &VecDeque<L2BlockData>) -> (n: usize)
    requires
        blocks_size(blocks@) <= usize::MAX,
    ensures
        n == blocks_size(blocks@),
{
    let mut total: usize = 0;
    let mut i: usize = 0;
    while i < blocks.len()
        invariant
            i <= blocks@.len(),
            total == blocks_size(blocks@.take(i as int)),
            blocks_size(blocks@) <= usize::MAX,
        decreases blocks@.len() - i,
    {
        proof {
            let s = blocks@;
            assert(s.take(i + 1).drop_last() =~= s.take(i as int));
            lemma_blocks_size_split(s, i + 1);
        }
        total = total + block_size_of(&blocks[i]);
        i += 1;
    }
    assert(blocks@.take(i as int) =~= blocks@);
    total
}

/// A batch ready for submission.
#[derive(Clone, Debug)]
pub struct PendingBatch {
    /// Batch sequence number.
    pub batch_number: u64,
    /// Blocks in this batch.
    pub blocks: Vec<L2BlockData>,
    /// Total uncompressed size in bytes.
    pub uncompressed_size: usize,
}

/// Drives batching decisions: when to cut a batch, and what goes in it.
#[derive(Debug)]
pub struct BatchDriver {
    config: BatcherConfig,
    pending_blocks: VecDeque<L2BlockData>,
    current_size: usize,
    last_submission: Instant,
    batch_number: u64,
}

impl BatchDriver {
    /// The configuration the driver runs with.
    pub closed spec fn config_spec(&self) -> BatcherConfig {
        self.config
    }

    /// The blocks waiting to be batched, oldest first.
    pub closed spec fn pending(&self) -> Seq<L2BlockData> {
        self.pending_blocks@
    }

    /// The accumulated size of the pending blocks as the driver tracks it.
    pub closed spec fn size_spec(&self) -> nat {
        self.current_size as nat
    }

    /// The instant the batch interval is measured from: creation or the
    /// last batch cut.
    pub closed spec fn last_submission_spec(&self) -> Instant {
        self.last_submission
    }

    /// Whether the batch interval has elapsed when the clock reads `now`:
    /// the time from the interval's start to `now` is at least the interval.
    pub open spec fn interval_elapsed_at(&self, now: Instant) -> bool {
        duration_ge(instant_gap(now, self.last_submission_spec()), self.config_spec().batch_interval)
    }

    /// The number the next batch gets.
    pub closed spec fn next_batch_number(&self) -> u64 {
        self.batch_number
    }

    /// The driver's invariant: the tracked size is the size of the pending
    /// blocks.
    pub closed spec fn wf(&self) -> bool {
        self.current_size == blocks_size(self.pending_blocks@)
    }

    /// Under the invariant, the tracked size is the size of the pending
    /// blocks.
    pub proof fn lemma_size_is_pending_size(&self)
        requires
            self.wf(),
        ensures
            self.size_spec() == blocks_size(self.pending()),
    {
    }

    /// Whether the pending size reached the minimum batch size.
    pub open spec fn size_ready_spec(&self) -> bool {
        self.size_spec() >= self.config_spec().min_batch_size
    }

    /// Whether the pending block count reached the maximum per batch.
    pub open spec fn blocks_ready_spec(&self) -> bool {
        self.pending().len() >= self.config_spec().max_blocks_per_batch
    }

    /// The submission decision, given whether the batch interval has elapsed
    /// since the last batch.
    pub open spec fn decision(&self, interval_elapsed: bool) -> bool {
        self.size_ready_spec() || interval_elapsed || self.blocks_ready_spec()
    }

    /// Creates a driver with no pending blocks, batch number zero, and the
    /// interval measured from now.
    pub fn new(config: BatcherConfig) -> (d: BatchDriver)
        ensures
            d.wf(),
            d.config_spec() == config,
            d.pending() == Seq::<L2BlockData>::empty(),
            d.size_spec() == 0,
            d.size_spec() == blocks_size(d.pending()),
            d.next_batch_number() == 0,
    {
        BatchDriver {
            config,
            pending_blocks: VecDeque::new(),
            current_size: 0,
            last_submission: instant_now(),
            batch_number: 0,
        }
    }

    /// Appends blocks to the pending queue, adding their sizes. A total size
    /// above `usize::MAX` overflows and is ruled out.
    pub fn add_blocks(&mut self, blocks: Vec<L2BlockData>)
        requires
            old(self).wf(),
            blocks_size(old(self).pending()) + blocks_size(blocks@) <= usize::MAX,
        ensures
            final(self).wf(),
            final(self).pending() == old(self).pending() + blocks@,
            final(self).size_spec() == old(self).size_spec() + blocks_size(blocks@),
            final(self).size_spec() == blocks_size(final(self).pending()),
            final(self).config_spec() == old(self).config_spec(),
            final(self).next_batch_number() == old(self).next_batch_number(),
            final(self).last_submission_spec() == old(self).last_submission_spec(),
    {
        let ghost before = self.pending_blocks@;
        let ghost added = blocks@;
        let ghost cfg = self.config;
        let ghost bn: u64 = self.batch_number;
        let ghost ls = self.last_submission;
        let added_len: usize = blocks.len();
        assert(added.len() == added_len);
        let mut blocks = blocks;
        let mut taken: usize = 0;
        while blocks.len() > 0
            invariant
                self.config == cfg,
                self.batch_number == bn,
                self.last_submission == ls,
                blocks@.len() == added.len() - taken,
                added.len() <= usize::MAX,
                self.current_size == blocks_size(self.pending_blocks@),
                self.pending_blocks@ == before + added.take(taken as int),
                blocks@ == added.skip(taken as int),
                taken <= added.len(),
                blocks_size(before) + blocks_size(added) <= usize::MAX,
            decreases blocks@.len(),
        {
            let block = blocks.remove(0);
            proof {
                assert(block == added[taken as int]);
                assert(added.take(taken + 1) =~= added.take(taken as int).push(block));
                lemma_blocks_size_push(before + added.take(taken as int), block);
                assert((before + added.take(taken as int)).push(block) =~= before + added.take(taken + 1));
                lemma_blocks_size_concat(before, added.take(taken + 1));
                lemma_blocks_size_split(added, taken + 1);
                assert(blocks@ =~= added.skip(taken + 1));
            }
            let block_size: usize = block_size_of(&block);
            self.current_size = self.current_size + block_size;
            self.pending_blocks.push_back(block);
            taken = taken + 1;
        }
        proof {
            assert(added.take(taken as int) =~= added);
            lemma_blocks_size_concat(before, added);
        }
    }

    /// Whether the pending size reached the minimum batch size.
    pub fn size_ready(&self) -> (r: bool)
        requires
            self.wf(),
        ensures
            r == self.size_ready_spec(),
    {
        self.current_size >= self.config.min_batch_size
    }

    /// Whether the pending block count reached the maximum per batch.
    pub fn blocks_ready(&self) -> (r: bool)
        ensures
            r == self.blocks_ready_spec(),
    {
        self.pending_blocks.len() >= self.config.max_blocks_per_batch as usize
    }

    /// Whether the batch interval has elapsed since the last batch (or
    /// creation): the time from then to the instant the clock reads is at
    /// least the interval. A zero interval has always elapsed.
    pub fn time_ready(&self) -> (r: bool)
        ensures
            exists|now: Instant| r == #[trigger] self.interval_elapsed_at(now),
            self.config_spec().batch_interval == secs_duration(0) ==> r,
    {
        let elapsed = elapsed_since(&self.last_submission);
        let r = duration_at_least(elapsed, self.config.batch_interval);
        proof {
            let now = choose|now: Instant| elapsed == instant_gap(now, self.last_submission);
            assert(r == self.interval_elapsed_at(now));
        }
        r
    }

    /// The submission decision once the clock has been read: submit when the
    /// minimum size is reached, the interval has elapsed, or the block limit
    /// is reached.
    pub fn submit_decision(&self, interval_elapsed: bool) -> (r: bool)
        requires
            self.wf(),
        ensures
            r == self.decision(interval_elapsed),
    {
        self.size_ready() || interval_elapsed || self.blocks_ready()
    }

    /// Whether a batch should be cut now. The interval part reads the clock;
    /// whatever it says, a reached size or block limit means yes.
    pub fn should_submit(&self) -> (r: bool)
        requires
            self.wf(),
        ensures
            exists|now: Instant| r == self.decision(#[trigger] self.interval_elapsed_at(now)),
            self.config_spec().batch_interval == secs_duration(0) ==> r,
    {
        let interval_elapsed = self.time_ready();
        self.submit_decision(interval_elapsed)
    }

    /// Cuts a batch if the decision (given whether the interval has elapsed)
    /// says so: drains up to `max_blocks_per_batch` of the oldest pending
    /// blocks into a batch carrying the current batch number and their size,
    /// advances the batch number and restarts the interval. Otherwise returns
    /// `None` and changes nothing. Numbering past `u64::MAX` overflows
    /// and is ruled out.
    pub fn build_batch_with(&mut self, interval_elapsed: bool) -> (r: Option<PendingBatch>)
        requires
            old(self).wf(),
            old(self).next_batch_number() < u64::MAX,
        ensures
            r is None ==> final(self).last_submission_spec() == old(self).last_submission_spec(),
            final(self).wf(),
            final(self).size_spec() == blocks_size(final(self).pending()),
            final(self).config_spec() == old(self).config_spec(),
            !old(self).decision(interval_elapsed) ==> r is None && final(self).pending() == old(self).pending()
                && final(self).size_spec() == old(self).size_spec()
                && final(self).next_batch_number() == old(self).next_batch_number(),
            old(self).decision(interval_elapsed) ==> r is Some,
            r matches Some(b) ==> {
                let n = if old(self).pending().len() <= old(self).config_spec().max_blocks_per_batch {
                    old(self).pending().len() as int
                } else {
                    old(self).config_spec().max_blocks_per_batch as int
                };
                &&& b.batch_number == old(self).next_batch_number()
                &&& b.blocks@.len() <= old(self).config_spec().max_blocks_per_batch
                &&& b.blocks@ == old(self).pending().take(n)
                &&& final(self).pending() == old(self).pending().skip(n)
                &&& b.blocks@ + final(self).pending() == old(self).pending()
                &&& b.uncompressed_size == blocks_size(b.blocks@)
                &&& final(self).next_batch_number() == old(self).next_batch_number() + 1
            },
    {
        let now = instant_now();
        self.cut_batch(interval_elapsed, now)
    }

    /// Cuts a batch as [`BatchDriver::build_batch_with`] does, restarting
    /// the interval at `now`.
    fn cut_batch(&mut self, interval_elapsed: bool, now: Instant) -> (r: Option<PendingBatch>)
        requires
            old(self).wf(),
            old(self).next_batch_number() < u64::MAX,
        ensures
            r is None ==> final(self).last_submission_spec() == old(self).last_submission_spec(),
            r is Some ==> final(self).last_submission_spec() == now,
            final(self).wf(),
            final(self).size_spec() == blocks_size(final(self).pending()),
            final(self).config_spec() == old(self).config_spec(),
            !old(self).decision(interval_elapsed) ==> r is None && final(self).pending() == old(self).pending()
                && final(self).size_spec() == old(self).size_spec()
                && final(self).next_batch_number() == old(self).next_batch_number(),
            old(self).decision(interval_elapsed) ==> r is Some,
            r matches Some(b) ==> {
                let n = if old(self).pending().len() <= old(self).config_spec().max_blocks_per_batch {
                    old(self).pending().len() as int
                } else {
                    old(self).config_spec().max_blocks_per_batch as int
                };
                &&& b.batch_number == old(self).next_batch_number()
                &&& b.blocks@.len() <= old(self).config_spec().max_blocks_per_batch
                &&& b.blocks@ == old(self).pending().take(n)
                &&& final(self).pending() == old(self).pending().skip(n)
                &&& b.blocks@ + final(self).pending() == old(self).pending()
                &&& b.uncompressed_size == blocks_size(b.blocks@)
                &&& final(self).next_batch_number() == old(self).next_batch_number() + 1
            },
    {
        if !self.submit_decision(interval_elapsed) {
            return None;
        }
        let ghost before = self.pending_blocks@;
        let max_blocks: usize = self.config.max_blocks_per_batch as usize;
        let ghost n: int = if before.len() <= max_blocks { before.len() as int } else { max_blocks as int };
        let ghost cfg = self.config;
        let ghost bn: u64 = self.batch_number;
        let mut blocks: Vec<L2BlockData> = Vec::new();
        while self.pending_blocks.len() > 0 && blocks.len() < max_blocks
            invariant
                self.config == cfg,
                self.batch_number == bn,
                bn < u64::MAX,
                blocks.len() <= max_blocks,
                blocks@.len() <= before.len(),
                blocks@ == before.take(blocks@.len() as int),
                self.pending_blocks@ == before.skip(blocks@.len() as int),
                max_blocks == self.config.max_blocks_per_batch,
                n == if before.len() <= max_blocks { before.len() as int } else { max_blocks as int },
            decreases self.pending_blocks@.len(),
        {
            let ghost k: int = blocks@.len() as int;
            match self.pending_blocks.pop_front() {
                Some(block) => {
                    proof {
                        assert(block == before[k]);
                        assert(before.take(k + 1) =~= before.take(k).push(block));
                        assert(before.skip(k).subrange(1, before.skip(k).len() as int) =~= before.skip(k + 1));
                    }
                    blocks.push(block);
                },
                None => {},
            }
        }
        proof {
            assert(blocks@.len() == n);
            lemma_blocks_size_split(before, n);
            assert(before.take(n) + before.skip(n) =~= before);
        }
        self.current_size = blocks_size_of_queue(&self.pending_blocks);
        let uncompressed_size: usize = blocks_size_of_vec(&blocks);
        let batch = PendingBatch { batch_number: self.batch_number, blocks, uncompressed_size };
        self.batch_number = self.batch_number + 1;
        self.last_submission = now;
        Some(batch)
    }

    /// Cuts a batch if submission criteria are met (see
    /// [`BatchDriver::build_batch_with`]); whether the interval has elapsed
    /// is read from the clock.
    pub fn build_batch(&mut self) -> (r: Option<PendingBatch>)
        requires
            old(self).wf(),
            old(self).next_batch_number() < u64::MAX,
        ensures
            r is None ==> final(self).last_submission_spec() == old(self).last_submission_spec(),
            final(self).wf(),
            final(self).size_spec() == blocks_size(final(self).pending()),
            final(self).config_spec() == old(self).config_spec(),
            exists|now: Instant|
                {
                    let e = #[trigger] old(self).interval_elapsed_at(now);
                    &&& !old(self).decision(e) ==> r is None && final(self).pending() == old(self).pending()
                        && final(self).size_spec() == old(self).size_spec()
                        && final(self).next_batch_number() == old(self).next_batch_number()
                    &&& old(self).decision(e) ==> r is Some
                    &&& r is Some ==> final(self).last_submission_spec() == now
                },
            (old(self).size_ready_spec() || old(self).blocks_ready_spec()) ==> r is Some,
            old(self).config_spec().batch_interval == secs_duration(0) ==> r is Some,
            r matches Some(b) ==> {
                let n = if old(self).pending().len() <= old(self).config_spec().max_blocks_per_batch {
                    old(self).pending().len() as int
                } else {
                    old(self).config_spec().max_blocks_per_batch as int
                };
                &&& b.batch_number == old(self).next_batch_number()
                &&& b.blocks@.len() <= old(self).config_spec().max_blocks_per_batch
                &&& b.blocks@ == old(self).pending().take(n)
                &&& final(self).pending() == old(self).pending().skip(n)
                &&& b.blocks@ + final(self).pending() == old(self).pending()
                &&& b.uncompressed_size == blocks_size(b.blocks@)
                &&& final(self).next_batch_number() == old(self).next_batch_number() + 1
            },
    {
        let now = instant_now();
        let elapsed = duration_between(&now, &self.last_submission);
        let interval_elapsed = duration_at_least(elapsed, self.config.batch_interval);
        assert(old(self).interval_elapsed_at(now) == interval_elapsed);
        let r = self.cut_batch(interval_elapsed, now);
        r
    }

    /// Number of pending blocks.
    pub fn pending_count(&self) -> (n: usize)
        ensures
            n == self.pending().len(),
    {
        self.pending_blocks.len()
    }

    /// Accumulated size of the pending blocks, in bytes.
    pub fn current_size(&self) -> (n: usize)
        ensures
            n == self.size_spec(),
    {
        self.current_size
    }

    /// The number the next batch gets.
    pub fn batch_number(&self) -> (n: u64)
        ensures
            n == self.next_batch_number(),
    {
        self.batch_number
    }
}

/// Cutting a batch restarts the interval: when a batch was cut at the clock
/// reading `cut` (as [`BatchDriver::build_batch`] states, the driver's
/// interval then starts at `cut`), a later call with neither the size nor
/// the block limit reached cuts again exactly when the time from `cut` to
/// its own reading is at least the interval, whatever the start was before.
pub proof fn law_interval_restarts_at_cut(before: BatchDriver, after: BatchDriver, cut: Instant, later: Instant)
    requires
        after.last_submission_spec() == cut,
        after.config_spec() == before.config_spec(),
        !after.size_ready_spec(),
        !after.blocks_ready_spec(),
    ensures
        after.decision(after.interval_elapsed_at(later)) == duration_ge(
            instant_gap(later, cut),
            before.config_spec().batch_interval,
        ),
{
}

/// A copy of a configuration, field for field.
fn copy_config(c: &BatcherConfig) -> (r: BatcherConfig)
    ensures
        r == *c,
{
    BatcherConfig { ..*c }
}

/// The bytes of a sequence of transactions, one after another.
pub open spec fn txs_concat(txs: Seq<Bytes>) -> Seq<u8>
    decreases txs.len(),
{
    if txs.len() == 0 {
        Seq::empty()
    } else {
        txs_concat(txs.drop_last()) + txs.last()@
    }
}

/// The bytes of a sequence of blocks: the transactions of each block, block
/// after block.
pub open spec fn blocks_concat(blocks: Seq<L2BlockData>) -> Seq<u8>
    decreases blocks.len(),
{
    if blocks.len() == 0 {
        Seq::empty()
    } else {
        blocks_concat(blocks.drop_last()) + txs_concat(blocks.last().transactions@)
    }
}

/// Appends a byte slice to a byte vector.
fn append_bytes(out: &mut Vec<u8>, data: &[u8])
    ensures
        final(out)@ == old(out)@ + data@,
{
    let mut i: usize = 0;
    while i < data.len()
        invariant
            i <= data@.len(),
            out@ == old(out)@ + data@.take(i as int),
        decreases data@.len() - i,
    {
        out.push(data[i]);
        proof {
            assert(data@.take(i + 1) =~= data@.take(i as int).push(data@[i as int]));
        }
        i += 1;
    }
    assert(data@.take(data@.len() as int) =~= data@);
}

/// The uncompressed bytes of a batch: the transactions of its blocks, in
/// order, one after another.
pub fn batch_data(batch: &PendingBatch) -> (out: Vec<u8>)
    ensures
        out@ == blocks_concat(batch.blocks@),
{
    let mut out: Vec<u8> = Vec::new();
    let mut i: usize = 0;
    while i < batch.blocks.len()
        invariant
            i <= batch.blocks@.len(),
            out@ == blocks_concat(batch.blocks@.take(i as int)),
        decreases batch.blocks@.len() - i,
    {
        let block = &batch.blocks[i];
        let ghost before = out@;
        let mut j: usize = 0;
        while j < block.transactions.len()
            invariant
                j <= block.transactions@.len(),
                out@ == before + txs_concat(block.transactions@.take(j as int)),
            decreases block.transactions@.len() - j,
        {
            append_bytes(&mut out, block.transactions[j].as_slice());
            proof {
                let t = block.transactions@.take(j + 1);
                assert(t.drop_last() =~= block.transactions@.take(j as int));
                assert(before + txs_concat(block.transactions@.take(j as int)) + block.transactions@[j as int]@
                    =~= before + (txs_concat(block.transactions@.take(j as int)) + block.transactions@[j as int]@));
            }
            j += 1;
        }
        proof {
            assert(block.transactions@.take(j as int) =~= block.transactions@);
            let b = batch.blocks@.take(i + 1);
            assert(b.drop_last() =~= batch.blocks@.take(i as int));
            assert(b.last() == *block);
        }
        i += 1;
    }
    assert(batch.blocks@.take(batch.blocks@.len() as int) =~= batch.blocks@);
    out
}

/// Whether a batch is due for pending blocks `pending` under `config`,
/// given whether the batch interval has elapsed: the minimum size is
/// reached, the interval has elapsed, or the block limit is reached.
pub open spec fn cut_due(config: BatcherConfig, pending: Seq<L2BlockData>, interval_elapsed: bool) -> bool {
    blocks_size(pending) >= config.min_batch_size || interval_elapsed || pending.len()
        >= config.max_blocks_per_batch
}

/// The number of the oldest `pending` blocks a batch takes under `config`.
pub open spec fn cut_len(config: BatcherConfig, pending: Seq<L2BlockData>) -> int {
    if pending.len() <= config.max_blocks_per_batch {
        pending.len() as int
    } else {
        config.max_blocks_per_batch as int
    }
}

/// The batcher service: a source of blocks, a compressor and a sink, with
/// the driver that decides when to cut batches, and the service's state and
/// metrics. A round of the service runs in three steps around the outside
/// work: [`BatcherService::tick`] takes the blocks collected from the
/// source and cuts a batch when one is due; the caller compresses
/// [`batch_data`] of that batch and hands the result to
/// [`BatcherService::batch_for_submission`], then submits it through the
/// sink and reports the outcome to [`BatcherService::on_submitted`] or
/// [`BatcherService::on_submit_failed`].
pub struct BatcherService<S, C, K> {
    source: S,
    compressor: C,
    sink: K,
    config: BatcherConfig,
    driver: BatchDriver,
    state: BatcherState,
    metrics: BatcherMetrics,
    blocks_cut: u64,
}

impl<S, C, K> BatcherService<S, C, K> {
    /// The service's invariant: its driver's, on the service's
    /// configuration; every block collected is either cut into a batch or
    /// still pending.
    pub closed spec fn wf(&self) -> bool {
        &&& self.driver.wf()
        &&& self.driver.config_spec() == self.config
        &&& self.blocks_cut + self.driver.pending().len() == self.state.total_blocks_processed
    }

    /// The configuration the service runs with.
    pub closed spec fn config_spec(&self) -> BatcherConfig {
        self.config
    }

    /// The source blocks are collected from.
    pub closed spec fn source_spec(&self) -> S {
        self.source
    }

    /// The compressor batches go through.
    pub closed spec fn compressor_spec(&self) -> C {
        self.compressor
    }

    /// The sink batches are submitted to.
    pub closed spec fn sink_spec(&self) -> K {
        self.sink
    }

    /// The service's state.
    pub closed spec fn state_spec(&self) -> BatcherState {
        self.state
    }

    /// The service's metrics.
    pub closed spec fn metrics_spec(&self) -> BatcherMetrics {
        self.metrics
    }

    /// The blocks waiting in the driver.
    pub closed spec fn pending_spec(&self) -> Seq<L2BlockData> {
        self.driver.pending()
    }

    /// The number the next batch gets.
    pub closed spec fn next_batch_spec(&self) -> u64 {
        self.driver.next_batch_number()
    }

    /// The instant the batch interval is measured from: creation or the
    /// last batch cut.
    pub closed spec fn interval_start_spec(&self) -> Instant {
        self.driver.last_submission_spec()
    }

    /// Whether the batch interval has elapsed when the clock reads `now`.
    pub open spec fn interval_elapsed_at(&self, now: Instant) -> bool {
        duration_ge(instant_gap(now, self.interval_start_spec()), self.config_spec().batch_interval)
    }

    /// Number of collected blocks already cut into batches; blocks are
    /// numbered from zero in the order they were collected.
    pub closed spec fn blocks_cut_spec(&self) -> u64 {
        self.blocks_cut
    }

    /// Creates a service with a fresh driver over the configuration, the
    /// default state (nothing processed, not healthy) and zero metrics.
    pub fn new(source: S, compressor: C, sink: K, config: BatcherConfig) -> (s: Self)
        ensures
            s.wf(),
            s.config_spec() == config,
            s.state_spec() == (BatcherState {
                last_batch_number: 0,
                last_l1_block: 0,
                total_blocks_processed: 0,
                total_batches_submitted: 0,
                is_healthy: false,
            }),
            s.metrics_spec() == BatcherMetrics::zero(),
            s.pending_spec() == Seq::<L2BlockData>::empty(),
            s.next_batch_spec() == 0,
            s.blocks_cut_spec() == 0,
            s.source_spec() == source,
            s.compressor_spec() == compressor,
            s.sink_spec() == sink,
    {
        let driver = BatchDriver::new(copy_config(&config));
        BatcherService {
            source,
            compressor,
            sink,
            config,
            driver,
            state: BatcherState {
                last_batch_number: 0,
                last_l1_block: 0,
                total_blocks_processed: 0,
                total_batches_submitted: 0,
                is_healthy: false,
            },
            metrics: BatcherMetrics::new(),
            blocks_cut: 0,
        }
    }

    /// The service's state.
    pub fn state(&self) -> (r: &BatcherState)
        ensures
            *r == self.state_spec(),
    {
        &self.state
    }

    /// The service's metrics.
    pub fn metrics(&self) -> (r: &BatcherMetrics)
        ensures
            *r == self.metrics_spec(),
    {
        &self.metrics
    }

    /// The configuration the service runs with.
    pub fn config(&self) -> (r: &BatcherConfig)
        ensures
            *r == self.config_spec(),
    {
        &self.config
    }

    /// Number of blocks waiting in the driver.
    pub fn pending_blocks(&self) -> (n: usize)
        ensures
            n == self.pending_spec().len(),
    {
        self.driver.pending_count()
    }

    /// The number the next batch gets.
    pub fn next_batch_number(&self) -> (n: u64)
        ensures
            n == self.next_batch_spec(),
    {
        self.driver.batch_number()
    }

    /// Total size of the blocks waiting in the driver.
    pub fn pending_size(&self) -> (n: usize)
        requires
            self.wf(),
        ensures
            n == blocks_size(self.pending_spec()),
    {
        self.driver.current_size()
    }

    /// The source blocks are collected from.
    pub fn source_mut(&mut self) -> (r: &mut S)
        ensures
            *r == old(self).source_spec(),
            final(self).source_spec() == *final(r),
            final(self).compressor_spec() == old(self).compressor_spec(),
            final(self).sink_spec() == old(self).sink_spec(),
            final(self).wf() == old(self).wf(),
            final(self).config_spec() == old(self).config_spec(),
            final(self).state_spec() == old(self).state_spec(),
            final(self).metrics_spec() == old(self).metrics_spec(),
            final(self).pending_spec() == old(self).pending_spec(),
            final(self).next_batch_spec() == old(self).next_batch_spec(),
            final(self).blocks_cut_spec() == old(self).blocks_cut_spec(),
            final(self).interval_start_spec() == old(self).interval_start_spec(),
    {
        &mut self.source
    }

    /// The compressor batches go through.
    pub fn compressor(&self) -> (r: &C)
        ensures
            *r == self.compressor_spec(),
    {
        &self.compressor
    }

    /// The sink batches are submitted to.
    pub fn sink_mut(&mut self) -> (r: &mut K)
        ensures
            *r == old(self).sink_spec(),
            final(self).sink_spec() == *final(r),
            final(self).source_spec() == old(self).source_spec(),
            final(self).compressor_spec() == old(self).compressor_spec(),
            final(self).wf() == old(self).wf(),
            final(self).config_spec() == old(self).config_spec(),
            final(self).state_spec() == old(self).state_spec(),
            final(self).metrics_spec() == old(self).metrics_spec(),
            final(self).pending_spec() == old(self).pending_spec(),
            final(self).next_batch_spec() == old(self).next_batch_spec(),
            final(self).blocks_cut_spec() == old(self).blocks_cut_spec(),
            final(self).interval_start_spec() == old(self).interval_start_spec(),
    {
        &mut self.sink
    }

    /// One round of the service, once the source's pending blocks have been
    /// collected: adds them to the driver, counting them in the state and
    /// the metrics; then, when a batch is due (the clock decides whether the
    /// interval has elapsed), cuts it from the oldest pending blocks. The
    /// metrics' pending count is the driver's afterwards. Counts past their
    /// integer types overflow and are ruled out.
    pub fn tick(&mut self, blocks: Vec<L2BlockData>) -> (r: Option<PendingBatch>)
        requires
            old(self).wf(),
            blocks_size(old(self).pending_spec()) + blocks_size(blocks@) <= usize::MAX,
            old(self).state_spec().total_blocks_processed + blocks@.len() <= u64::MAX,
            old(self).metrics_spec().blocks_processed + blocks@.len() <= u64::MAX,
            old(self).next_batch_spec() < u64::MAX,
        ensures
            final(self).wf(),
            final(self).config_spec() == old(self).config_spec(),
            final(self).state_spec() == (BatcherState {
                total_blocks_processed: (old(self).state_spec().total_blocks_processed + blocks@.len()) as u64,
                ..old(self).state_spec()
            }),
            final(self).metrics_spec() == (BatcherMetrics {
                blocks_processed: (old(self).metrics_spec().blocks_processed + blocks@.len()) as u64,
                pending_blocks: final(self).pending_spec().len() as u64,
                ..old(self).metrics_spec()
            }),
            exists|now: Instant|
                {
                    &&& (cut_due(
                        old(self).config_spec(),
                        old(self).pending_spec() + blocks@,
                        #[trigger] old(self).interval_elapsed_at(now),
                    ) <==> r is Some)
                    &&& r is Some ==> final(self).interval_start_spec() == now
                },
            blocks_size(old(self).pending_spec() + blocks@) >= old(self).config_spec().min_batch_size
                || (old(self).pending_spec() + blocks@).len() >= old(self).config_spec().max_blocks_per_batch
                ==> r is Some,
            old(self).config_spec().batch_interval == secs_duration(0) ==> r is Some,
            r is None ==> final(self).interval_start_spec() == old(self).interval_start_spec(),
            r is None ==> final(self).pending_spec() == old(self).pending_spec() + blocks@
                && final(self).next_batch_spec() == old(self).next_batch_spec()
                && final(self).blocks_cut_spec() == old(self).blocks_cut_spec(),
            r matches Some(b) ==> {
                let all = old(self).pending_spec() + blocks@;
                let n = cut_len(old(self).config_spec(), all);
                &&& b.batch_number == old(self).next_batch_spec()
                &&& b.blocks@ == all.take(n)
                &&& final(self).pending_spec() == all.skip(n)
                &&& b.uncompressed_size == blocks_size(b.blocks@)
                &&& final(self).next_batch_spec() == old(self).next_batch_spec() + 1
                &&& final(self).blocks_cut_spec() == old(self).blocks_cut_spec() + n
            },
    {
        let count: usize = blocks.len();
        let ghost old_blocks = blocks@;
        let ghost all = self.driver.pending() + blocks@;
        self.driver.add_blocks(blocks);
        self.state.total_blocks_processed = self.state.total_blocks_processed + count as u64;
        self.metrics.record_blocks(count as u64);
        let ghost mid = self.driver;
        let r = self.driver.build_batch();
        let ghost now = choose|now: Instant|
            {
                let e = #[trigger] mid.interval_elapsed_at(now);
                &&& !mid.decision(e) ==> r is None && self.driver.pending() == mid.pending()
                    && self.driver.size_spec() == mid.size_spec()
                    && self.driver.next_batch_number() == mid.next_batch_number()
                &&& mid.decision(e) ==> r is Some
                &&& r is Some ==> self.driver.last_submission_spec() == now
            };
        let ghost e = mid.interval_elapsed_at(now);
        proof {
            assert(mid.decision(e) == cut_due(self.config, all, e));
            assert(cut_due(self.config, all, e) <==> r is Some);
        }
        match &r {
            Some(b) => {
                proof {
                    assert(b.blocks@ + self.driver.pending() == all);
                }
                self.blocks_cut = self.blocks_cut + b.blocks.len() as u64;
            },
            None => {},
        }
        let pending: usize = self.driver.pending_count();
        self.metrics.set_pending_blocks(pending as u64);
        proof {
            assert(self.config == old(self).config_spec());
            assert(all == old(self).pending_spec() + old_blocks);
            assert(cut_due(old(self).config_spec(), old(self).pending_spec() + old_blocks, e) <==> r is Some);
            assert(e == old(self).interval_elapsed_at(now));
        }
        r
    }

    /// The batch handed to the sink for a batch just cut by
    /// [`BatcherService::tick`], given its compressed data: its number, its
    /// block count, and the numbers of its first and last blocks among the
    /// blocks collected (an empty batch is placed at the next block).
    pub fn batch_for_submission(&self, batch: &PendingBatch, compressed: Vec<u8>) -> (b: CompressedBatch)
        requires
            batch.blocks@.len() <= self.blocks_cut_spec(),
        ensures
            b.batch_number == batch.batch_number,
            b.data@ == compressed@,
            b.block_count == batch.blocks@.len(),
            b.first_block == self.blocks_cut_spec() - batch.blocks@.len(),
            b.last_block == if batch.blocks@.len() == 0 {
                self.blocks_cut_spec() as int
            } else {
                self.blocks_cut_spec() - 1
            },
    {
        let count: u64 = batch.blocks.len() as u64;
        let first_block: u64 = self.blocks_cut - count;
        let last_block: u64 = if count == 0 { self.blocks_cut } else { self.blocks_cut - 1 };
        CompressedBatch { batch_number: batch.batch_number, data: compressed, block_count: count, first_block, last_block }
    }

    /// Records a batch the sink accepted: the state takes the receipt's
    /// batch number and L1 block, counts the batch and is healthy; the
    /// metrics count the batch and its uncompressed and compressed sizes (no
    /// gas is reported by the sink). The receipt is handed back. Totals past
    /// `u64::MAX` overflow and are ruled out.
    pub fn on_submitted(&mut self, batch: &CompressedBatch, uncompressed_size: usize, receipt: SubmissionReceipt) -> (r: SubmissionReceipt)
        requires
            old(self).state_spec().total_batches_submitted < u64::MAX,
            old(self).metrics_spec().batches_submitted < u64::MAX,
            old(self).metrics_spec().total_uncompressed_bytes + uncompressed_size <= u64::MAX,
            old(self).metrics_spec().total_compressed_bytes + batch.data@.len() <= u64::MAX,
        ensures
            r == receipt,
            final(self).state_spec() == (BatcherState {
                last_batch_number: receipt.batch_number,
                last_l1_block: receipt.l1_block,
                total_batches_submitted: (old(self).state_spec().total_batches_submitted + 1) as u64,
                is_healthy: true,
                ..old(self).state_spec()
            }),
            final(self).metrics_spec() == (BatcherMetrics {
                batches_submitted: (old(self).metrics_spec().batches_submitted + 1) as u64,
                total_uncompressed_bytes: (old(self).metrics_spec().total_uncompressed_bytes
                    + uncompressed_size) as u64,
                total_compressed_bytes: (old(self).metrics_spec().total_compressed_bytes + batch.data@.len()) as u64,
                ..old(self).metrics_spec()
            }),
            final(self).wf() == old(self).wf(),
            final(self).config_spec() == old(self).config_spec(),
            final(self).pending_spec() == old(self).pending_spec(),
            final(self).next_batch_spec() == old(self).next_batch_spec(),
            final(self).blocks_cut_spec() == old(self).blocks_cut_spec(),
            final(self).interval_start_spec() == old(self).interval_start_spec(),
    {
        self.state.last_batch_number = receipt.batch_number;
        self.state.last_l1_block = receipt.l1_block;
        self.state.total_batches_submitted = self.state.total_batches_submitted + 1;
        self.state.is_healthy = true;
        let compressed: usize = batch.data.len();
        self.metrics.record_submission(uncompressed_size as u64, compressed as u64, 0);
        receipt
    }

    /// Records a batch that could not be compressed or submitted: the
    /// metrics count a failed batch and the service is not healthy. A count
    /// past `u64::MAX` overflows and is ruled out.
    pub fn on_submit_failed(&mut self)
        requires
            old(self).metrics_spec().batches_failed < u64::MAX,
        ensures
            final(self).state_spec() == (BatcherState { is_healthy: false, ..old(self).state_spec() }),
            final(self).metrics_spec() == (BatcherMetrics {
                batches_failed: (old(self).metrics_spec().batches_failed + 1) as u64,
                ..old(self).metrics_spec()
            }),
            final(self).wf() == old(self).wf(),
            final(self).config_spec() == old(self).config_spec(),
            final(self).pending_spec() == old(self).pending_spec(),
            final(self).next_batch_spec() == old(self).next_batch_spec(),
            final(self).blocks_cut_spec() == old(self).blocks_cut_spec(),
            final(self).interval_start_spec() == old(self).interval_start_spec(),
    {
        self.state.is_healthy = false;
        self.metrics.record_failure();
    }
}

} // verus!
