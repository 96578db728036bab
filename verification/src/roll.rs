//! Random draws and the fixed-point rates they are compared against.
//!
//! A rate is a probability written in billionths (`RATE_SCALE` is certainty).
//! A roll is a raw 64-bit draw; its top 53 bits, read as a fraction of
//! `2^53`, are the uniform number in `[0, 1)` that the generator's `f64`
//! sampling would give. "The roll is below the rate" is decided exactly, in
//! integers, against the rate as a whole number of billionths. That is not
//! always the answer of an `f64` comparison: sums and products of `f64`
//! rates are rounded, so at a roll lying within rounding distance of a rate
//! the two can differ.
use vstd::prelude::*;
use rand::rngs::ThreadRng;
use rand::Rng;
use rand::RngCore;

verus! {

/// rand's thread-local generator, opaque here: it is only handed to the draws below.
#[verifier::external_type_specification]
#[verifier::external_body]
pub struct ExThreadRng(ThreadRng);

/// A rate of `RATE_SCALE` billionths is certainty.
pub const RATE_SCALE: u64 = 1_000_000_000;

/// The number of distinct uniform fractions a roll can stand for (`2^53`).
pub const ROLL_SPAN: u64 = 9_007_199_254_740_992;

/// A roll keeps its top 53 bits: it is divided by `2^11`.
pub const ROLL_DROP: u64 = 2048;

/// The numerator, over `ROLL_SPAN`, of the fraction that `roll` stands for.
pub open spec fn roll_numerator(roll: u64) -> int {
    roll as int / ROLL_DROP as int
}

/// The fraction that `roll` stands for is strictly below `rate / RATE_SCALE`.
pub open spec fn roll_hits(roll: u64, rate: int) -> bool {
    roll_numerator(roll) * (RATE_SCALE as int) < rate * (ROLL_SPAN as int)
}

/// A roll that is below a rate is below every larger rate.
pub proof fn lemma_roll_hits_monotonic(roll: u64, lo: int, hi: int)
    requires
        lo <= hi,
        roll_hits(roll, lo),
    ensures
        roll_hits(roll, hi),
{
    assert(lo * (ROLL_SPAN as int) <= hi * (ROLL_SPAN as int)) by (nonlinear_arith)
        requires
            lo <= hi,
    ;
}

/// A rate of certainty or more is hit by every roll; a rate of zero or less by none.
pub proof fn lemma_roll_hits_extremes(roll: u64, rate: int)
    ensures
        rate >= RATE_SCALE ==> roll_hits(roll, rate),
        rate <= 0 ==> !roll_hits(roll, rate),
{
    let k = roll_numerator(roll);
    assert(0 <= k < ROLL_SPAN);
    if rate >= RATE_SCALE {
        assert(k * (RATE_SCALE as int) < rate * (ROLL_SPAN as int)) by (nonlinear_arith)
            requires
                0 <= k < ROLL_SPAN as int,
                rate >= RATE_SCALE as int,
        ;
    }
    if rate <= 0 {
        assert(k * (RATE_SCALE as int) >= 0 >= rate * (ROLL_SPAN as int)) by (nonlinear_arith)
            requires
                0 <= k,
                rate <= 0,
        ;
    }
}

/// Decides `roll_hits` for a rate held in 128 bits.
pub fn roll_hits_rate(roll: u64, rate: u128) -> (hit: bool)
    ensures
        hit == roll_hits(roll, rate as int),
{
    let k: u64 = roll / ROLL_DROP;
    if rate >= RATE_SCALE as u128 {
        proof {
            lemma_roll_hits_extremes(roll, rate as int);
        }
        true
    } else {
        assert((k as int) * (RATE_SCALE as int) < 0x1_0000_0000_0000_0000_0000_0000) by (nonlinear_arith)
            requires
                k < ROLL_SPAN,
        ;
        assert((rate as int) * (ROLL_SPAN as int) < 0x1_0000_0000_0000_0000_0000_0000) by (nonlinear_arith)
            requires
                rate < RATE_SCALE,
        ;
        (k as u128) * (RATE_SCALE as u128) < rate * (ROLL_SPAN as u128)
    }
}

/// Calls `RngCore::next_u64` on the thread-local generator.
/// Nothing is promised of the value: it comes from chance.
#[verifier::external_body]
pub(crate) fn draw_roll(rng: &mut ThreadRng) -> (roll: u64) {
    rng.next_u64()
}

/// Calls `Rng::random_range(0..n)` on the thread-local generator.
/// rand documents that the value lies in the half-open range and that an
/// empty range panics, so `n` must be positive; which value comes is chance.
#[verifier::external_body]
pub(crate) fn draw_index(rng: &mut ThreadRng, n: u32) -> (index: u32)
    requires
        n > 0,
    ensures
        index < n,
{
    rng.random_range(0..n)
}

} // verus!
