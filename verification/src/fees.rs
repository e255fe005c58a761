//! Fee arithmetic of the transaction manager: the EIP-4844 exponential
//! approximation, blob fees and the total cost of a receipt.

use vstd::prelude::*;
use vstd::arithmetic::div_mod::{lemma_div_is_ordered, lemma_div_multiples_vanish};
use vstd::arithmetic::mul::lemma_mul_inequality;
use alloy::primitives::U256;

verus! {

/// `a * b`, saturated at `u128::MAX`.
pub open spec fn sat_mul(a: int, b: int) -> int {
    if a * b > u128::MAX { u128::MAX as int } else { a * b }
}

/// `a + b`, saturated at `u128::MAX`.
pub open spec fn sat_add(a: int, b: int) -> int {
    if a + b > u128::MAX { u128::MAX as int } else { a + b }
}

/// The Taylor-series accumulation behind [`fake_exponential`]: starting with
/// `output` and the current term `acc` at step `i`, add the term, derive the
/// next one as `acc * numerator / (denominator * i)` (saturating the product),
/// and go on while that term is positive, for at most one hundred terms.
pub open spec fn taylor_sum(output: int, acc: int, i: int, numerator: int, denominator: int) -> int
    decreases 100 - i,
{
    let out: int = sat_add(output, acc);
    if i >= 100 || denominator * i <= 0 {
        out
    } else {
        let next: int = sat_mul(acc, numerator) / (denominator * i);
        if next > 0 {
            taylor_sum(out, next, i + 1, numerator, denominator)
        } else {
            out
        }
    }
}

/// The value of `fake_exponential(factor, numerator, denominator)`: an
/// approximation of `factor * e^(numerator / denominator)`.
pub open spec fn fake_exponential_spec(factor: nat, numerator: nat, denominator: nat) -> int {
    taylor_sum(0, sat_mul(factor as int, denominator as int), 1, numerator as int, denominator as int)
        / (denominator as int)
}

fn saturating_mul_u128(a: u128, b: u128) -> (r: u128)
    ensures
        r == sat_mul(a as int, b as int),
{
    match a.checked_mul(b) {
        Some(v) => v,
        None => u128::MAX,
    }
}

/// Approximates `factor * e^(numerator / denominator)` with the integer
/// Taylor series used for EIP-4844 blob pricing, saturating instead of
/// overflowing. A zero `denominator` is a division by zero
/// and is ruled out.
pub fn fake_exponential(factor: u128, numerator: u64, denominator: u64) -> (r: u128)
    requires
        denominator > 0,
    ensures
        r == fake_exponential_spec(factor as nat, numerator as nat, denominator as nat),
{
    let ghost target: int = taylor_sum(
        0,
        sat_mul(factor as int, denominator as int),
        1,
        numerator as int,
        denominator as int,
    );
    let mut output: u128 = 0;
    let mut numerator_accum: u128 = saturating_mul_u128(factor, denominator as u128);
    let mut i: u128 = 1;
    loop
        invariant_except_break
            1 <= i <= 100,
            denominator > 0,
            taylor_sum(output as int, numerator_accum as int, i as int, numerator as int, denominator as int)
                == target,
        ensures
            output == target,
        decreases 101 - i,
    {
        output = output.saturating_add(numerator_accum);
        let product: u128 = saturating_mul_u128(numerator_accum, numerator as u128);
        assert(denominator as u128 * i <= 100 * u64::MAX) by (nonlinear_arith)
            requires
                i <= 100,
        ;
        assert(denominator * i > 0) by (nonlinear_arith)
            requires
                i >= 1,
                denominator > 0,
        ;
        let divisor: u128 = denominator as u128 * i;
        let next_accum = product.checked_div(divisor);
        match next_accum {
            Some(val) if val > 0 => numerator_accum = val,
            _ => break,
        }
        i += 1;
        if i > 100 {
            break;
        }
    }
    output / denominator as u128
}


/// The accumulation never falls below the first step it takes.
proof fn lemma_taylor_sum_at_least_first(output: int, acc: int, i: int, numerator: int, denominator: int)
    requires
        0 <= output,
        0 <= acc,
    ensures
        taylor_sum(output, acc, i, numerator, denominator) >= sat_add(output, acc),
    decreases 100 - i,
{
    let out: int = sat_add(output, acc);
    if i >= 100 || denominator * i <= 0 {
    } else {
        let next: int = sat_mul(acc, numerator) / (denominator * i);
        if next > 0 {
            lemma_taylor_sum_at_least_first(out, next, i + 1, numerator, denominator);
        }
    }
}

/// The accumulation is monotone in its starting values and in the numerator.
proof fn lemma_taylor_sum_monotone(
    o1: int,
    a1: int,
    o2: int,
    a2: int,
    i: int,
    n1: int,
    n2: int,
    denominator: int,
)
    requires
        0 <= o1 <= o2,
        0 <= a1 <= a2,
        0 <= n1 <= n2,
    ensures
        taylor_sum(o1, a1, i, n1, denominator) <= taylor_sum(o2, a2, i, n2, denominator),
    decreases 100 - i,
{
    let out1: int = sat_add(o1, a1);
    let out2: int = sat_add(o2, a2);
    lemma_taylor_sum_at_least_first(o2, a2, i, n2, denominator);
    if i >= 100 || denominator * i <= 0 {
    } else {
        lemma_mul_inequality(a1, a2, n1);
        assert(a2 * n1 <= a2 * n2) by (nonlinear_arith)
            requires
                0 <= a2,
                n1 <= n2,
        ;
        assert(0 <= a1 * n1) by (nonlinear_arith)
            requires
                0 <= a1,
                0 <= n1,
        ;
        let p1: int = sat_mul(a1, n1);
        let p2: int = sat_mul(a2, n2);
        assert(p1 <= p2);
        let next1: int = p1 / (denominator * i);
        let next2: int = p2 / (denominator * i);
        lemma_div_is_ordered(p1, p2, denominator * i);
        lemma_div_is_ordered(0, p1, denominator * i);
        if next1 > 0 {
            lemma_taylor_sum_monotone(out1, next1, out2, next2, i + 1, n1, n2, denominator);
        } else if next2 > 0 {
            lemma_taylor_sum_at_least_first(out2, next2, i + 1, n2, denominator);
        }
    }
}

/// With a zero exponent the approximation is exact: `factor * e^0 == factor`,
/// as long as `factor * denominator` does not saturate.
pub proof fn law_fake_exponential_zero_exponent(factor: u128, denominator: u64)
    requires
        denominator > 0,
        factor * denominator <= u128::MAX,
    ensures
        fake_exponential_spec(factor as nat, 0, denominator as nat) == factor,
{
    let d: int = denominator as int;
    let f: int = factor as int;
    assert(sat_mul(f * d, 0) == 0);
    assert(0int / (d * 1) == 0);
    assert(taylor_sum(0, f * d, 1, 0, d) == f * d);
    lemma_div_multiples_vanish(f, d);
    assert(d * f == f * d) by (nonlinear_arith);
}

/// The approximation of `factor * e^x` for `x >= 0` is never below `factor`,
/// as long as `factor * denominator` does not saturate.
pub proof fn law_fake_exponential_at_least_factor(factor: u128, numerator: u64, denominator: u64)
    requires
        denominator > 0,
        factor * denominator <= u128::MAX,
    ensures
        fake_exponential_spec(factor as nat, numerator as nat, denominator as nat) >= factor,
{
    let d: int = denominator as int;
    let f: int = factor as int;
    assert(0 <= f * d) by (nonlinear_arith)
        requires
            0 <= f,
            0 <= d,
    ;
    lemma_taylor_sum_at_least_first(0, f * d, 1, numerator as int, d);
    lemma_div_is_ordered(f * d, taylor_sum(0, f * d, 1, numerator as int, d), d);
    lemma_div_multiples_vanish(f, d);
    assert(d * f == f * d) by (nonlinear_arith);
}

/// The approximation is monotone in the exponent's numerator.
pub proof fn law_fake_exponential_monotone(factor: u128, n1: u64, n2: u64, denominator: u64)
    requires
        denominator > 0,
        n1 <= n2,
    ensures
        fake_exponential_spec(factor as nat, n1 as nat, denominator as nat)
            <= fake_exponential_spec(factor as nat, n2 as nat, denominator as nat),
{
    let d: int = denominator as int;
    let f: int = factor as int;
    assert(0 <= f * d) by (nonlinear_arith)
        requires
            0 <= f,
            0 <= d,
    ;
    let a: int = sat_mul(f, d);
    lemma_taylor_sum_monotone(0, a, 0, a, 1, n1 as int, n2 as int, d);
    lemma_div_is_ordered(
        taylor_sum(0, a, 1, n1 as int, d),
        taylor_sum(0, a, 1, n2 as int, d),
        d,
    );
}

/// The approximation is monotone in the factor.
pub proof fn law_fake_exponential_monotone_in_factor(f1: u128, f2: u128, numerator: u64, denominator: u64)
    requires
        denominator > 0,
        f1 <= f2,
    ensures
        fake_exponential_spec(f1 as nat, numerator as nat, denominator as nat)
            <= fake_exponential_spec(f2 as nat, numerator as nat, denominator as nat),
{
    let d: int = denominator as int;
    assert(0 <= f1 * d <= f2 * d) by (nonlinear_arith)
        requires
            0 <= f1 <= f2,
            0 <= d,
    ;
    let a1: int = sat_mul(f1 as int, d);
    let a2: int = sat_mul(f2 as int, d);
    lemma_taylor_sum_monotone(0, a1, 0, a2, 1, numerator as int, numerator as int, d);
    lemma_div_is_ordered(
        taylor_sum(0, a1, 1, numerator as int, d),
        taylor_sum(0, a2, 1, numerator as int, d),
        d,
    );
}

/// The `k`-th term (from one) of the integer Taylor series of
/// `factor * denominator * e^(numerator / denominator)`: the first is
/// `factor * denominator`, and each next one is the previous times
/// `numerator / (denominator * (k - 1))`, rounded down, products saturating
/// at `u128::MAX`.
pub open spec fn series_term(factor: int, numerator: int, denominator: int, k: nat) -> int
    decreases k,
{
    if k <= 1 {
        sat_mul(factor, denominator)
    } else {
        sat_mul(series_term(factor, numerator, denominator, (k - 1) as nat), numerator) / (denominator * (k - 1))
    }
}

/// The sum of the first `k` terms of the series.
pub open spec fn series_partial(factor: int, numerator: int, denominator: int, k: nat) -> int
    decreases k,
{
    if k == 0 {
        0
    } else {
        series_partial(factor, numerator, denominator, (k - 1) as nat) + series_term(
            factor,
            numerator,
            denominator,
            k,
        )
    }
}

/// The smaller of `x` and `u128::MAX`.
pub open spec fn cap128(x: int) -> int {
    if x > u128::MAX { u128::MAX as int } else { x }
}

proof fn lemma_series_terms_nonneg(factor: int, numerator: int, denominator: int, k: nat)
    requires
        factor >= 0,
        numerator >= 0,
        denominator > 0,
    ensures
        series_term(factor, numerator, denominator, k) >= 0,
        series_partial(factor, numerator, denominator, k) >= 0,
    decreases k,
{
    assert(factor * denominator >= 0) by (nonlinear_arith)
        requires
            factor >= 0,
            denominator > 0,
    ;
    if k > 1 {
        lemma_series_terms_nonneg(factor, numerator, denominator, (k - 1) as nat);
        let prev = series_term(factor, numerator, denominator, (k - 1) as nat);
        assert(prev * numerator >= 0) by (nonlinear_arith)
            requires
                prev >= 0,
                numerator >= 0,
        ;
        assert(denominator * (k - 1) > 0) by (nonlinear_arith)
            requires
                denominator > 0,
                k > 1,
        ;
        lemma_div_is_ordered(0, sat_mul(prev, numerator), denominator * (k - 1));
    }
    if k > 0 {
        lemma_series_terms_nonneg(factor, numerator, denominator, (k - 1) as nat);
    }
}

/// The accumulation from step `i`, holding the capped sum of the terms
/// before it and the `i`-th term, reaches the capped sum of the first `k`
/// terms for every `k` from `i` to one hundred whose terms are all positive.
proof fn lemma_taylor_sum_covers_terms(factor: int, numerator: int, denominator: int, i: nat, k: nat)
    requires
        factor >= 0,
        numerator >= 0,
        denominator > 0,
        1 <= i <= k <= 100,
        forall|j: nat| 1 <= j <= k ==> #[trigger] series_term(factor, numerator, denominator, j) > 0,
    ensures
        taylor_sum(
            cap128(series_partial(factor, numerator, denominator, (i - 1) as nat)),
            series_term(factor, numerator, denominator, i),
            i as int,
            numerator,
            denominator,
        ) >= cap128(series_partial(factor, numerator, denominator, k)),
    decreases 100 - i,
{
    lemma_series_terms_nonneg(factor, numerator, denominator, (i - 1) as nat);
    lemma_series_terms_nonneg(factor, numerator, denominator, i);
    let before = series_partial(factor, numerator, denominator, (i - 1) as nat);
    let acc = series_term(factor, numerator, denominator, i);
    let out = sat_add(cap128(before), acc);
    assert(out == cap128(series_partial(factor, numerator, denominator, i)));
    assert(denominator * i > 0) by (nonlinear_arith)
        requires
            denominator > 0,
            i >= 1,
    ;
    if i == k {
        lemma_taylor_sum_at_least_first(cap128(before), acc, i as int, numerator, denominator);
    } else {
        let next = sat_mul(acc, numerator) / (denominator * i);
        assert(next == series_term(factor, numerator, denominator, (i + 1) as nat));
        assert(next > 0);
        lemma_taylor_sum_covers_terms(factor, numerator, denominator, (i + 1) as nat, k);
        assert((i + 1 - 1) as nat == i);
    }
}

/// The approximation takes in the series up to one hundred terms: for every
/// `k <= 100` whose first `k` terms are positive, `fake_exponential` times the
/// denominator falls short of the sum of those terms (capped at `u128::MAX`)
/// by less than the denominator, that is, the result is that sum divided by
/// the denominator, rounded down, or more. A series cut short after fewer
/// terms breaks this wherever the next term is positive.
pub proof fn law_fake_exponential_sums_series(factor: u128, numerator: u64, denominator: u64, k: nat)
    requires
        denominator > 0,
        1 <= k <= 100,
        forall|j: nat| 1 <= j <= k ==> #[trigger] series_term(factor as int, numerator as int, denominator as int, j)
            > 0,
    ensures
        fake_exponential_spec(factor as nat, numerator as nat, denominator as nat) * denominator + denominator
            > cap128(series_partial(factor as int, numerator as int, denominator as int, k)),
{
    let f: int = factor as int;
    let n: int = numerator as int;
    let d: int = denominator as int;
    lemma_taylor_sum_covers_terms(f, n, d, 1, k);
    assert(series_partial(f, n, d, 0) == 0);
    assert(cap128(0) == 0);
    assert(series_term(f, n, d, 1) == sat_mul(f, d));
    let t = taylor_sum(0, sat_mul(f, d), 1, n, d);
    assert(t >= cap128(series_partial(f, n, d, k)));
    let q = t / d;
    assert(q * d + d > t) by (nonlinear_arith)
        requires
            d > 0,
            q == t / d,
    ;
}

/// The EIP-4844 minimum blob gas price, in wei.
pub const MIN_BLOB_GASPRICE: u128 = 1;

/// The EIP-4844 blob gas price update fraction.
pub const BLOB_GASPRICE_UPDATE_FRACTION: u64 = 3338477;

/// The blob fee, in wei, for a block with the given excess blob gas:
/// `MIN_BLOB_GASPRICE * e^(excess_blob_gas / BLOB_GASPRICE_UPDATE_FRACTION)`.
pub fn calc_blob_fee(excess_blob_gas: u64) -> (fee: u128)
    ensures
        fee == fake_exponential_spec(
            MIN_BLOB_GASPRICE as nat,
            excess_blob_gas as nat,
            BLOB_GASPRICE_UPDATE_FRACTION as nat,
        ),
{
    fake_exponential(MIN_BLOB_GASPRICE, excess_blob_gas, BLOB_GASPRICE_UPDATE_FRACTION)
}

/// The blob fee is never below the minimum blob gas price, and it grows with
/// the excess blob gas.
pub proof fn law_blob_fee_bounded_below_and_monotone(e1: u64, e2: u64)
    requires
        e1 <= e2,
    ensures
        fake_exponential_spec(MIN_BLOB_GASPRICE as nat, e1 as nat, BLOB_GASPRICE_UPDATE_FRACTION as nat)
            >= MIN_BLOB_GASPRICE,
        fake_exponential_spec(MIN_BLOB_GASPRICE as nat, e1 as nat, BLOB_GASPRICE_UPDATE_FRACTION as nat)
            <= fake_exponential_spec(
            MIN_BLOB_GASPRICE as nat,
            e2 as nat,
            BLOB_GASPRICE_UPDATE_FRACTION as nat,
        ),
        fake_exponential_spec(MIN_BLOB_GASPRICE as nat, 0, BLOB_GASPRICE_UPDATE_FRACTION as nat)
            == MIN_BLOB_GASPRICE,
{
    law_fake_exponential_at_least_factor(MIN_BLOB_GASPRICE, e1, BLOB_GASPRICE_UPDATE_FRACTION);
    law_fake_exponential_monotone(MIN_BLOB_GASPRICE, e1, e2, BLOB_GASPRICE_UPDATE_FRACTION);
    law_fake_exponential_zero_exponent(MIN_BLOB_GASPRICE, BLOB_GASPRICE_UPDATE_FRACTION);
}

/// Result of a successful transaction submission.
#[derive(Clone, Debug)]
pub struct TxReceipt {
    /// Transaction hash.
    pub tx_hash: [u8; 32],
    /// Block number where the transaction was included.
    pub block_number: u64,
    /// Block hash.
    pub block_hash: [u8; 32],
    /// Gas used by the transaction.
    pub gas_used: u64,
    /// Effective gas price paid.
    pub effective_gas_price: u128,
    /// Blob gas used (EIP-4844).
    pub blob_gas_used: Option<u64>,
    /// Blob gas price (EIP-4844).
    pub blob_gas_price: Option<u128>,
}

impl TxReceipt {
    /// The blob part of the cost: blob gas times blob gas price when both are
    /// known, zero otherwise.
    pub open spec fn blob_cost_spec(&self) -> int {
        match (self.blob_gas_used, self.blob_gas_price) {
            (Some(used), Some(price)) => used * price,
            _ => 0,
        }
    }

    /// Total cost in wei: execution gas at the effective price plus the blob
    /// part.
    pub open spec fn total_cost_spec(&self) -> int {
        self.gas_used * self.effective_gas_price + self.blob_cost_spec()
    }

    /// Calculates the total cost of the transaction: `gas_used *
    /// effective_gas_price`, plus `blob_gas_used * blob_gas_price` when both
    /// blob values are present. A total above `u128::MAX` overflows
    /// and is ruled out.
    pub fn total_cost(&self) -> (cost: u128)
        requires
            self.total_cost_spec() <= u128::MAX,
        ensures
            cost == self.total_cost_spec(),
    {
        proof {
            assert(0 <= self.gas_used * self.effective_gas_price) by (nonlinear_arith);
            assert(0 <= self.blob_cost_spec()) by (nonlinear_arith);
        }
        let base_cost: u128 = self.gas_used as u128 * self.effective_gas_price;
        let blob_cost: u128 = match (self.blob_gas_used, self.blob_gas_price) {
            (Some(blob_gas_used), Some(blob_gas_price)) => blob_gas_used as u128 * blob_gas_price,
            _ => 0,
        };
        base_cost + blob_cost
    }
}

/// Whether a transaction mined in `receipt_block` has at least
/// `num_confirmations` confirmations when the chain head is `current_block`.
/// A head below the receipt's block counts as not confirmed.
pub fn has_confirmations(current_block: u64, receipt_block: u64, num_confirmations: u64) -> (r: bool)
    ensures
        r == (current_block >= receipt_block && current_block - receipt_block >= num_confirmations),
{
    if current_block < receipt_block {
        return false;
    }
    let confirmations: u64 = current_block - receipt_block;
    confirmations >= num_confirmations
}

/// 2^64.
pub open spec fn pow64() -> int {
    0x1_0000_0000_0000_0000
}

/// 2^256.
pub open spec fn pow256() -> int {
    pow64() * pow64() * pow64() * pow64()
}

/// A 256-bit unsigned integer held as four little-endian 64-bit limbs, the
/// layout of alloy's `U256`.
#[derive(Clone, Copy, Debug, PartialEq, Eq)]
pub struct Uint256 {
    /// Least significant limb.
    pub limb0: u64,
    /// Second limb.
    pub limb1: u64,
    /// Third limb.
    pub limb2: u64,
    /// Most significant limb.
    pub limb3: u64,
}

impl Uint256 {
    /// The number the limbs stand for.
    pub open spec fn value(&self) -> int {
        self.limb0 + self.limb1 * pow64() + self.limb2 * pow64() * pow64()
            + self.limb3 * pow64() * pow64() * pow64()
    }

    /// Zero.
    pub fn zero() -> (r: Uint256)
        ensures
            r.value() == 0,
    {
        Uint256 { limb0: 0, limb1: 0, limb2: 0, limb3: 0 }
    }

    /// The 256-bit integer equal to a `u128`.
    pub fn from_u128(x: u128) -> (r: Uint256)
        ensures
            r.value() == x,
    {
        let lo: u64 = x as u64;
        let hi: u64 = (x >> 64u32) as u64;
        proof {
            assert(x == (x as u64) + ((x >> 64u32) as u64) * 0x1_0000_0000_0000_0000u128) by (bit_vector);
        }
        Uint256 { limb0: lo, limb1: hi, limb2: 0, limb3: 0 }
    }

    /// The value as a `u128`; a value that does not fit is a conversion panic
    /// in alloy's `to::<u128>()` and is excluded.
    pub fn to_u128(&self) -> (r: u128)
        requires
            self.value() <= u128::MAX,
        ensures
            r == self.value(),
    {
        proof {
            lemma_value_fits_u128(*self);
        }
        let lo: u128 = self.limb0 as u128;
        let hi: u128 = self.limb1 as u128;
        proof {
            let l0: u64 = self.limb0;
            let l1: u64 = self.limb1;
            assert((l1 as u128) * 0x1_0000_0000_0000_0000u128 + (l0 as u128) <= u128::MAX) by (bit_vector);
        }
        hi * 0x1_0000_0000_0000_0000u128 + lo
    }
}

proof fn lemma_value_fits_u128(x: Uint256)
    requires
        x.value() <= u128::MAX,
    ensures
        x.limb2 == 0,
        x.limb3 == 0,
{
    let p: int = pow64();
    assert(p * p == 0x1_0000_0000_0000_0000_0000_0000_0000_0000);
    assert(0 <= x.limb0 + x.limb1 * p) by (nonlinear_arith)
        requires
            x.limb0 >= 0,
            x.limb1 >= 0,
            p > 0,
    ;
    if x.limb2 > 0 {
        assert(x.limb2 * p * p >= p * p) by (nonlinear_arith)
            requires
                x.limb2 >= 1,
                p > 0,
        ;
        assert(x.limb3 * p * p * p >= 0) by (nonlinear_arith)
            requires
                x.limb3 >= 0,
                p > 0,
        ;
    }
    if x.limb3 > 0 {
        assert(x.limb3 * p * p * p >= p * p) by (nonlinear_arith)
            requires
                x.limb3 >= 1,
                p > 1,
        ;
        assert(x.limb2 * p * p >= 0) by (nonlinear_arith)
            requires
                x.limb2 >= 0,
                p > 0,
        ;
    }
}

/// alloy's `U256` multiplication operator, which wraps around at 2^256.
#[verifier::external_body]
fn u256_mul(a: Uint256, b: Uint256) -> (r: Uint256)
    ensures
        r.value() == (a.value() * b.value()) % pow256(),
{
    let x = U256::from_limbs([a.limb0, a.limb1, a.limb2, a.limb3])
        * U256::from_limbs([b.limb0, b.limb1, b.limb2, b.limb3]);
    let l = x.into_limbs();
    Uint256 { limb0: l[0], limb1: l[1], limb2: l[2], limb3: l[3] }
}

/// alloy's `U256` division operator (floor division); a zero divisor panics
/// in alloy and is excluded.
#[verifier::external_body]
fn u256_div(a: Uint256, b: Uint256) -> (r: Uint256)
    requires
        b.value() != 0,
    ensures
        r.value() == a.value() / b.value(),
{
    let x = U256::from_limbs([a.limb0, a.limb1, a.limb2, a.limb3])
        / U256::from_limbs([b.limb0, b.limb1, b.limb2, b.limb3]);
    let l = x.into_limbs();
    Uint256 { limb0: l[0], limb1: l[1], limb2: l[2], limb3: l[3] }
}

/// alloy's `U256` addition operator, which wraps around at 2^256.
#[verifier::external_body]
fn u256_add(a: Uint256, b: Uint256) -> (r: Uint256)
    ensures
        r.value() == (a.value() + b.value()) % pow256(),
{
    let x = U256::from_limbs([a.limb0, a.limb1, a.limb2, a.limb3])
        + U256::from_limbs([b.limb0, b.limb1, b.limb2, b.limb3]);
    let l = x.into_limbs();
    Uint256 { limb0: l[0], limb1: l[1], limb2: l[2], limb3: l[3] }
}

/// Gas price caps for transaction submission.
#[derive(Clone, Debug)]
pub struct GasCaps {
    /// Maximum priority fee per gas (tip).
    pub gas_tip_cap: Uint256,
    /// Maximum fee per gas.
    pub gas_fee_cap: Uint256,
    /// Maximum fee per blob gas (blob transactions only).
    pub blob_fee_cap: Option<Uint256>,
}

/// The value of an optional 256-bit cap.
pub open spec fn opt_value(x: Option<Uint256>) -> Option<int> {
    match x {
        Some(v) => Some(v.value()),
        None => None,
    }
}

/// `value * (100 + percent) / 100`, with the product wrapping at 2^256 as
/// alloy's `U256` multiplication does.
pub open spec fn bumped_value(value: int, percent: int) -> int {
    ((value * (100 + percent)) % pow256()) / 100
}

/// Bumping never lowers a cap: where `value * (100 + percent)` stays below
/// 2^256, the bumped value is at least the value, and strictly more once the
/// bump adds a whole unit.
pub proof fn law_bump_never_decreases(value: int, percent: int)
    requires
        0 <= value,
        0 <= percent,
        value * (100 + percent) < pow256(),
    ensures
        bumped_value(value, percent) >= value,
        value * percent >= 100 ==> bumped_value(value, percent) > value,
{
    assert(value * (100 + percent) >= 0) by (nonlinear_arith)
        requires
            value >= 0,
            percent >= 0,
    ;
    assert((value * (100 + percent)) % pow256() == value * (100 + percent)) by {
        vstd::arithmetic::div_mod::lemma_small_mod((value * (100 + percent)) as nat, pow256() as nat);
    }
    assert(value * (100 + percent) == value * 100 + value * percent) by (nonlinear_arith);
    assert(value * percent >= 0) by (nonlinear_arith)
        requires
            value >= 0,
            percent >= 0,
    ;
    assert((value * 100 + value * percent) / 100 >= value);
    assert(value * percent >= 100 ==> (value * 100 + value * percent) / 100 > value);
}

impl Default for GasCaps {
    /// Zero caps and no blob cap.
    fn default() -> (r: GasCaps)
        ensures
            r.gas_tip_cap.value() == 0,
            r.gas_fee_cap.value() == 0,
            r.blob_fee_cap is None,
    {
        GasCaps { gas_tip_cap: Uint256::zero(), gas_fee_cap: Uint256::zero(), blob_fee_cap: None }
    }
}

impl GasCaps {
    /// The caps suggested for a block with base fee `base_fee`: the tip is
    /// the minimum tip `min_tip_cap_wei`, the fee cap is the base fee plus
    /// the tip, and where the block reports excess blob gas the blob cap is
    /// the blob fee it implies.
    pub fn suggested(base_fee: u64, min_tip_cap_wei: u128, excess_blob_gas: Option<u64>) -> (r: GasCaps)
        ensures
            r.gas_tip_cap.value() == min_tip_cap_wei,
            r.gas_fee_cap.value() == base_fee + min_tip_cap_wei,
            match excess_blob_gas {
                Some(e) => opt_value(r.blob_fee_cap) == Some(
                    fake_exponential_spec(MIN_BLOB_GASPRICE as nat, e as nat, BLOB_GASPRICE_UPDATE_FRACTION as nat)
                        as int,
                ),
                None => r.blob_fee_cap is None,
            },
    {
        let gas_tip_cap = Uint256::from_u128(min_tip_cap_wei);
        let base = Uint256::from_u128(base_fee as u128);
        let gas_fee_cap = u256_add(base, gas_tip_cap);
        proof {
            assert(base_fee + min_tip_cap_wei < pow256()) by {
                assert(pow256() == 0x1_0000_0000_0000_0000_0000_0000_0000_0000_0000_0000_0000_0000_0000_0000_0000_0000int);
            }
        }
        let blob_fee_cap = match excess_blob_gas {
            Some(e) => Some(Uint256::from_u128(calc_blob_fee(e))),
            None => None,
        };
        GasCaps { gas_tip_cap, gas_fee_cap, blob_fee_cap }
    }

    /// Creates gas caps from `u128` values: each cap holds its value.
    pub fn new(max_fee_per_gas: u128, max_priority_fee_per_gas: u128, blob_fee_cap: Option<u128>) -> (r: GasCaps)
        ensures
            r.gas_tip_cap.value() == max_priority_fee_per_gas,
            r.gas_fee_cap.value() == max_fee_per_gas,
            match blob_fee_cap {
                Some(fee) => opt_value(r.blob_fee_cap) == Some(fee as int),
                None => r.blob_fee_cap is None,
            },
    {
        let blob = match blob_fee_cap {
            Some(fee) => Some(Uint256::from_u128(fee)),
            None => None,
        };
        GasCaps {
            gas_tip_cap: Uint256::from_u128(max_priority_fee_per_gas),
            gas_fee_cap: Uint256::from_u128(max_fee_per_gas),
            blob_fee_cap: blob,
        }
    }

    /// Returns `max_fee_per_gas` as `u128`; a cap that does not fit panics
    /// and is ruled out.
    pub fn max_fee_per_gas(&self) -> (r: u128)
        requires
            self.gas_fee_cap.value() <= u128::MAX,
        ensures
            r == self.gas_fee_cap.value(),
    {
        self.gas_fee_cap.to_u128()
    }

    /// Returns `max_priority_fee_per_gas` as `u128`; a cap that does not fit
    /// panics and is ruled out.
    pub fn max_priority_fee_per_gas(&self) -> (r: u128)
        requires
            self.gas_tip_cap.value() <= u128::MAX,
        ensures
            r == self.gas_tip_cap.value(),
    {
        self.gas_tip_cap.to_u128()
    }
}

/// The fee bump percentages of the transaction manager's configuration.
#[derive(Clone, Copy, Debug)]
pub struct FeeBumpPolicy {
    /// Minimum percentage bump for regular transactions.
    pub price_bump_percent: u64,
    /// Minimum percentage bump for blob transactions.
    pub blob_price_bump_percent: u64,
}

impl FeeBumpPolicy {
    /// The percentage that applies to a transaction of the given kind.
    pub open spec fn percent_for(&self, is_blob: bool) -> u64 {
        if is_blob { self.blob_price_bump_percent } else { self.price_bump_percent }
    }

    /// Bumps every cap by the configured percentage:
    /// `value * (100 + percent) / 100` in 256-bit arithmetic, with the blob
    /// percentage for blob transactions. A percentage within 100 of
    /// `u64::MAX` overflows and is ruled out.
    pub fn bump_gas_caps(&self, caps: &GasCaps, is_blob: bool) -> (r: GasCaps)
        requires
            self.percent_for(is_blob) <= u64::MAX - 100,
        ensures
            r.gas_tip_cap.value() == bumped_value(caps.gas_tip_cap.value(), self.percent_for(is_blob) as int),
            r.gas_fee_cap.value() == bumped_value(caps.gas_fee_cap.value(), self.percent_for(is_blob) as int),
            match caps.blob_fee_cap {
                Some(fee) => opt_value(r.blob_fee_cap) == Some(
                    bumped_value(fee.value(), self.percent_for(is_blob) as int),
                ),
                None => r.blob_fee_cap is None,
            },
    {
        let bump_percent: u64 = if is_blob {
            self.blob_price_bump_percent
        } else {
            self.price_bump_percent
        };
        let multiplier = Uint256::from_u128((100 + bump_percent) as u128);
        let divisor = Uint256::from_u128(100);
        let gas_tip_cap = u256_div(u256_mul(caps.gas_tip_cap, multiplier), divisor);
        let gas_fee_cap = u256_div(u256_mul(caps.gas_fee_cap, multiplier), divisor);
        let blob_fee_cap = match caps.blob_fee_cap {
            Some(fee) => Some(u256_div(u256_mul(fee, multiplier), divisor)),
            None => None,
        };
        GasCaps { gas_tip_cap, gas_fee_cap, blob_fee_cap }
    }
}

} // verus!
