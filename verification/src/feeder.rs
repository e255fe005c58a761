//! The bookkeeping of the block feeder, which pulls L2 blocks up to the chain
//! tip and hands them to the sequencer in order.

use vstd::prelude::*;

verus! {

/// Where the feeder stands: the next block to fetch and how many blocks it
/// has handed on so far.
#[derive(Clone, Debug)]
pub struct FeederState {
    start: u64,
    current: u64,
    blocks_fetched: u64,
}

impl FeederState {
    /// The next block to fetch.
    pub closed spec fn next_block(&self) -> u64 {
        self.current
    }

    /// How many blocks were handed on.
    pub closed spec fn fetched(&self) -> u64 {
        self.blocks_fetched
    }

    /// The block the feeder started at.
    pub closed spec fn start_block(&self) -> u64 {
        self.start
    }

    /// The feeder's invariant: it has handed on the blocks from its start
    /// up to the next one, each once and in order.
    pub open spec fn wf(&self) -> bool {
        self.next_block() == self.start_block() + self.fetched()
    }

    /// Starts at block `start` with nothing handed on.
    pub fn new(start: u64) -> (s: Self)
        ensures
            s.wf(),
            s.start_block() == start,
            s.next_block() == start,
            s.fetched() == 0,
    {
        FeederState { start, current: start, blocks_fetched: 0 }
    }

    /// The next block to fetch.
    pub fn current(&self) -> (n: u64)
        ensures
            n == self.next_block(),
    {
        self.current
    }

    /// How many blocks were handed on.
    pub fn blocks_fetched(&self) -> (n: u64)
        ensures
            n == self.fetched(),
    {
        self.blocks_fetched
    }

    /// Whether the next block is at or below the chain tip, so that it can be
    /// fetched now.
    pub fn has_block_due(&self, chain_tip: u64) -> (r: bool)
        ensures
            r == (self.next_block() <= chain_tip),
    {
        self.current <= chain_tip
    }

    /// The next block was handed on: one more is counted and the feeder
    /// moves past it. Counts past `u64::MAX` overflow and are
    /// ruled out.
    pub fn on_block_fed(&mut self)
        requires
            old(self).next_block() < u64::MAX,
            old(self).fetched() < u64::MAX,
        ensures
            final(self).next_block() == old(self).next_block() + 1,
            final(self).fetched() == old(self).fetched() + 1,
            final(self).start_block() == old(self).start_block(),
            old(self).wf() ==> final(self).wf(),
    {
        self.blocks_fetched = self.blocks_fetched + 1;
        self.current = self.current + 1;
    }
}

/// The feeder hands blocks on in order, each once: after `k` blocks from
/// its start, the `k`-th block handed on (counting from zero) was `start + k`
/// and the next one is `start + k + 1`.
pub proof fn law_feeder_hands_on_consecutive_blocks(before: FeederState, after: FeederState)
    requires
        before.wf(),
        after.next_block() == before.next_block() + 1,
        after.fetched() == before.fetched() + 1,
        after.start_block() == before.start_block(),
    ensures
        after.wf(),
        before.next_block() == before.start_block() + before.fetched(),
        after.next_block() == after.start_block() + after.fetched(),
{
}

} // verus!
