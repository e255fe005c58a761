//! A window over the most recent latency samples.

use vstd::prelude::*;

verus! {

/// Most latency samples a window keeps.
pub const MAX_LATENCY_SAMPLES: usize = 100;

/// The samples kept after recording `latency` on top of `samples`: the
/// oldest sample goes once there are a hundred.
pub open spec fn after_latency(samples: Seq<u64>, latency: u64) -> Seq<u64> {
    if samples.len() >= MAX_LATENCY_SAMPLES {
        samples.skip(1).push(latency)
    } else {
        samples.push(latency)
    }
}

/// The sum of the samples.
pub open spec fn samples_sum(samples: Seq<u64>) -> nat
    decreases samples.len(),
{
    if samples.len() == 0 {
        0
    } else {
        samples_sum(samples.drop_last()) + samples.last() as nat
    }
}

/// A window never holds more than a hundred samples: recording a sample on
/// top of at most a hundred keeps at most a hundred, ends with the new
/// sample, and keeps the most recent of the earlier ones in order.
pub proof fn law_latency_window_keeps_last_hundred(samples: Seq<u64>, latency: u64)
    requires
        samples.len() <= MAX_LATENCY_SAMPLES,
    ensures
        after_latency(samples, latency).len() <= MAX_LATENCY_SAMPLES,
        after_latency(samples, latency).len() == if samples.len() < MAX_LATENCY_SAMPLES {
            samples.len() + 1
        } else {
            MAX_LATENCY_SAMPLES as nat
        },
        after_latency(samples, latency).last() == latency,
        after_latency(samples, latency) == samples.push(latency).skip(
            samples.len() + 1 - after_latency(samples, latency).len(),
        ),
{
    let r = after_latency(samples, latency);
    if samples.len() >= MAX_LATENCY_SAMPLES {
        assert(r =~= samples.push(latency).skip(1));
    } else {
        assert(r =~= samples.push(latency).skip(0));
    }
}

/// The most recent latency samples, in milliseconds, oldest first.
#[derive(Clone, Debug, Default)]
pub struct LatencyWindow {
    samples: Vec<u64>,
}

impl View for LatencyWindow {
    type V = Seq<u64>;

    closed spec fn view(&self) -> Seq<u64> {
        self.samples@
    }
}

impl LatencyWindow {
    /// An empty window.
    pub fn new() -> (w: Self)
        ensures
            w@ == Seq::<u64>::empty(),
    {
        LatencyWindow { samples: Vec::new() }
    }

    /// Records a sample, dropping the oldest once a hundred are kept.
    pub fn record(&mut self, latency_ms: u64)
        ensures
            final(self)@ == after_latency(old(self)@, latency_ms),
    {
        if self.samples.len() >= MAX_LATENCY_SAMPLES {
            self.samples.remove(0);
        }
        self.samples.push(latency_ms);
        proof {
            assert(self.samples@ =~= after_latency(old(self)@, latency_ms));
        }
    }

    /// Number of samples kept.
    pub fn len(&self) -> (n: usize)
        ensures
            n == self@.len(),
    {
        self.samples.len()
    }

    /// Sum of the samples kept.
    pub fn sum(&self) -> (total: u128)
        ensures
            total == samples_sum(self@),
    {
        let mut total: u128 = 0;
        let mut i: usize = 0;
        while i < self.samples.len()
            invariant
                i <= self.samples@.len(),
                total == samples_sum(self.samples@.take(i as int)),
                total <= i * 0xffff_ffff_ffff_ffffu64,
            decreases self.samples@.len() - i,
        {
            let x: u64 = self.samples[i];
            assert(self.samples@.take(i as int + 1).drop_last() =~= self.samples@.take(i as int));
            assert(total + x <= (i + 1) * 0xffff_ffff_ffff_ffffu64) by (nonlinear_arith)
                requires
                    total <= i * 0xffff_ffff_ffff_ffffu64,
                    x <= 0xffff_ffff_ffff_ffffu64,
            ;
            assert((i + 1) * 0xffff_ffff_ffff_ffffu64 <= 0xffff_ffff_ffff_ffff_ffff_ffff_ffff_ffffu128)
                by (nonlinear_arith)
                requires
                    i < 0x1_0000_0000_0000_0000int,
            ;
            total = total + x as u128;
            i = i + 1;
        }
        assert(self.samples@.take(i as int) =~= self.samples@);
        total
    }
}

} // verus!
