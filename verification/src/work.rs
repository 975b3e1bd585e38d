//! The unit of work a barrier worker performs: a random pause and a small
//! accumulation over it.

use rand::Rng;
use vstd::arithmetic::power2::{lemma2_to64, lemma_pow2_unfold, pow2};
use vstd::prelude::*;

verus! {

/// Lower bound, inclusive, of a worker's pause in milliseconds.
pub const PAUSE_MIN_MS: u64 = 100;

/// Upper bound, exclusive, of a worker's pause in milliseconds.
pub const PAUSE_END_MS: u64 = 500;

/// Number of accumulation rounds in one unit of work.
pub const ROUNDS: u64 = 10;

/// The factor by which ten rounds of accumulation scale their input:
/// `2^10 - 10 - 1`.
pub const TEN_ROUND_FACTOR: u64 = 1013;

/// The accumulator after `rounds` rounds over `num`: it starts at zero, and
/// round `i` (counted from zero) doubles it and adds `num * i`.
pub open spec fn accumulated(num: nat, rounds: nat) -> nat
    decreases rounds,
{
    if rounds == 0 {
        0
    } else {
        2 * accumulated(num, (rounds - 1) as nat) + num * ((rounds - 1) as nat)
    }
}

/// Closed form of the accumulation: after `rounds` rounds the accumulator is
/// `num * (2^rounds - rounds - 1)`.
pub proof fn lemma_accumulated_closed_form(num: nat, rounds: nat)
    ensures
        pow2(rounds) >= rounds + 1,
        accumulated(num, rounds) == num * (pow2(rounds) - rounds - 1),
    decreases rounds,
{
    if rounds == 0 {
        lemma2_to64();
        assert(num * (1 - 0 - 1) == 0) by (nonlinear_arith);
    } else {
        let prev: nat = (rounds - 1) as nat;
        lemma_accumulated_closed_form(num, prev);
        lemma_pow2_unfold(rounds);
        let p: int = pow2(prev) as int;
        assert(pow2(rounds) == 2 * p);
        assert(accumulated(num, rounds) == 2 * accumulated(num, prev) + num * prev);
        assert(2 * (num * (p - prev - 1)) + num * prev == num * (2 * p - rounds - 1))
            by (nonlinear_arith)
            requires
                rounds == prev + 1,
        ;
    }
}

/// Ten rounds scale `num` by 1013.
pub proof fn lemma_ten_rounds(num: nat)
    ensures
        accumulated(num, ROUNDS as nat) == TEN_ROUND_FACTOR * num,
{
    lemma_accumulated_closed_form(num, 10);
    lemma2_to64();
    assert(num * (1024 - 10 - 1) == 1013 * num) by (nonlinear_arith);
}

/// What one worker does: how long it pauses, and what it computes meanwhile.
#[derive(Clone, Copy, Debug, PartialEq, Eq)]
pub struct WorkPlan {
    /// The pause, in milliseconds, taken before and after the computation.
    pub pause_ms: u64,
    /// The accumulated sum over `pause_ms`.
    pub sum: u64,
}

/// `rand::Rng::gen_range` on the thread-local generator of
/// `rand::thread_rng`, over the half-open range `low..high`. The generator
/// is seeded per thread from the operating system, so nothing is claimed
/// but that the sample lies in the range. The range must not be empty:
/// `gen_range` panics on an empty one.
#[verifier::external_body]
fn random_in(low: u64, high: u64) -> (n: u64)
    requires
        low < high,
    ensures
        low <= n < high,
{
    rand::thread_rng().gen_range(low..high)
}

/// Runs the ten accumulation rounds over `num`.
///
/// The result is `1013 * num`; `num` must be small enough for that product
/// to fit in 64 bits. Every intermediate value is at most the result.
pub fn work_sum(num: u64) -> (sum: u64)
    requires
        TEN_ROUND_FACTOR * num <= u64::MAX,
    ensures
        sum == accumulated(num as nat, ROUNDS as nat),
        sum == TEN_ROUND_FACTOR * num,
{
    let mut sum: u64 = 0;
    let mut i: u64 = 0;
    proof {
        lemma_ten_rounds(num as nat);
    }
    while i < ROUNDS
        invariant
            i <= ROUNDS,
            sum == accumulated(num as nat, i as nat),
            accumulated(num as nat, ROUNDS as nat) == TEN_ROUND_FACTOR * num,
            TEN_ROUND_FACTOR * num <= u64::MAX,
        decreases ROUNDS - i,
    {
        proof {
            lemma_accumulated_monotone(num as nat, (i + 1) as nat, ROUNDS as nat);
            assert(num * i >= 0) by (nonlinear_arith);
        }
        sum = sum + sum + num * i;
        i = i + 1;
    }
    sum
}

/// The accumulator never shrinks from one round to a later one.
pub proof fn lemma_accumulated_monotone(num: nat, earlier: nat, later: nat)
    requires
        earlier <= later,
    ensures
        accumulated(num, earlier) <= accumulated(num, later),
    decreases later,
{
    if earlier < later {
        lemma_accumulated_monotone(num, earlier, (later - 1) as nat);
        assert(num * (later - 1) >= 0) by (nonlinear_arith)
            requires
                later >= 1,
        ;
    }
}

/// Draws a worker's pause and computes its sum.
///
/// The pause is one of the 400 values from 100 up to 499, whichever the
/// generator gave; the sum is fixed by the pause.
pub fn plan_work() -> (plan: WorkPlan)
    ensures
        PAUSE_MIN_MS <= plan.pause_ms < PAUSE_END_MS,
        plan.sum == TEN_ROUND_FACTOR * plan.pause_ms,
        plan.sum == accumulated(plan.pause_ms as nat, ROUNDS as nat),
{
    let pause_ms: u64 = random_in(PAUSE_MIN_MS, PAUSE_END_MS);
    let sum: u64 = work_sum(pause_ms);
    WorkPlan { pause_ms, sum }
}

} // verus!
