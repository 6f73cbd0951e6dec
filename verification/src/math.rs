//! The unlock arithmetic both engines share.
//!
//! A schedule releases `total` linearly over a time window. The amount
//! unlocked at a moment inside the window is `total` scaled by the elapsed
//! fraction of the window, rounded down — computed with integer arithmetic
//! only, over an intermediate wide enough that the multiplication cannot
//! overflow.

use vstd::prelude::*;

use vstd::arithmetic::div_mod::{
    lemma_div_is_ordered, lemma_div_multiples_vanish, lemma_div_of0, lemma_div_pos_is_pos,
};
use vstd::arithmetic::mul::{
    lemma_mul_inequality, lemma_mul_is_commutative, lemma_mul_nonnegative, lemma_mul_upper_bound,
};

verus! {

/// Truncated subtraction: `a - b`, but never below zero.
pub open spec fn monus(a: int, b: int) -> int {
    if a >= b {
        a - b
    } else {
        0
    }
}

/// How much of `total` has unlocked at `now` on a linear schedule running
/// from `window_start` to `window_end`, before subtracting anything already
/// released: `floor(total * elapsed / duration)`. Meaningful while `now` lies
/// inside the window.
pub open spec fn unlocked_amount(total: u64, window_start: i64, window_end: i64, now: i64) -> int
    recommends
        window_start <= now < window_end,
{
    total * (now - window_start) / (window_end - window_start)
}

/// Inside the window, the unlocked amount lies between zero and `total`.
pub proof fn lemma_unlocked_bounds(total: u64, window_start: i64, window_end: i64, now: i64)
    requires
        window_start <= now < window_end,
    ensures
        0 <= unlocked_amount(total, window_start, window_end, now) <= total,
{
    let elapsed = now - window_start;
    let duration = window_end - window_start;
    lemma_mul_nonnegative(total as int, elapsed);
    lemma_div_pos_is_pos(total * elapsed, duration);
    lemma_mul_inequality(elapsed, duration, total as int);
    lemma_mul_is_commutative(total as int, elapsed);
    lemma_mul_is_commutative(total as int, duration);
    lemma_div_is_ordered(total * elapsed, total * duration, duration);
    lemma_div_multiples_vanish(total as int, duration);
}

/// Within the window, the unlocked amount never decreases as time advances.
pub proof fn lemma_unlocked_monotonic(
    total: u64,
    window_start: i64,
    window_end: i64,
    t1: i64,
    t2: i64,
)
    requires
        window_start <= t1 <= t2 < window_end,
    ensures
        unlocked_amount(total, window_start, window_end, t1) <= unlocked_amount(
            total,
            window_start,
            window_end,
            t2,
        ),
{
    let duration = window_end - window_start;
    lemma_mul_inequality(t1 - window_start, t2 - window_start, total as int);
    lemma_mul_is_commutative(total as int, t1 - window_start);
    lemma_mul_is_commutative(total as int, t2 - window_start);
    lemma_div_is_ordered(total * (t1 - window_start), total * (t2 - window_start), duration);
}

/// At the very start of the window nothing has unlocked yet.
pub proof fn lemma_unlocked_at_start(total: u64, window_start: i64, window_end: i64)
    requires
        window_start < window_end,
    ensures
        unlocked_amount(total, window_start, window_end, window_start) == 0,
{
    lemma_div_of0(window_end - window_start);
}

/// Computes the unlocked amount with a 128-bit intermediate, so that the
/// multiplication cannot overflow and nothing is lost to rounding beyond the
/// final floor.
pub fn compute_unlocked(total: u64, window_start: i64, window_end: i64, now: i64) -> (r: u64)
    requires
        window_start <= now < window_end,
    ensures
        r == unlocked_amount(total, window_start, window_end, now),
        r <= total,
{
    proof {
        lemma_unlocked_bounds(total, window_start, window_end, now);
    }
    let elapsed: u128 = (now as i128 - window_start as i128) as u128;
    let duration: u128 = (window_end as i128 - window_start as i128) as u128;
    proof {
        lemma_mul_upper_bound(total as int, u64::MAX as int, elapsed as int, u64::MAX as int);
    }
    let wide: u128 = (total as u128) * elapsed / duration;
    wide as u64
}

} // verus!
