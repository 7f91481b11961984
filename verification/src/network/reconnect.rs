//! Exponential back-off between reconnection attempts.
use vstd::prelude::*;

verus! {

/// Two raised to `k`.
pub open spec fn doubling(k: nat) -> nat
    decreases k,
{
    if k == 0 {
        1
    } else {
        2 * doubling((k - 1) as nat)
    }
}

/// The delay before attempt number `attempt`: the minimum delay doubled once
/// per attempt (at most ten times), saturating at `u64::MAX`, capped at the
/// maximum delay.
pub open spec fn backoff(attempt: u32, min_delay_ms: u64, max_delay_ms: u64) -> u64 {
    let k: nat = if attempt <= 10 { attempt as nat } else { 10 };
    let grown = min_delay_ms * doubling(k);
    let saturated: u64 = if grown > u64::MAX { u64::MAX } else { grown as u64 };
    if saturated <= max_delay_ms { saturated } else { max_delay_ms }
}

proof fn lemma_doubling_grows(a: nat, b: nat)
    requires
        a <= b,
    ensures
        1 <= doubling(a) <= doubling(b),
    decreases b,
{
    if b > 0 {
        if a < b {
            lemma_doubling_grows(a, (b - 1) as nat);
        } else {
            lemma_doubling_grows((a - 1) as nat, (b - 1) as nat);
        }
    }
}

/// The delay in milliseconds before reconnection attempt `attempt`.
pub fn next_backoff_ms(attempt: u32, min_delay_ms: u64, max_delay_ms: u64) -> (delay: u64)
    ensures
        delay == backoff(attempt, min_delay_ms, max_delay_ms),
        delay <= max_delay_ms,
{
    let k: u32 = if attempt < 10 { attempt } else { 10 };
    let mut exponent: u64 = 1;
    let mut i: u32 = 0;
    while i < k
        invariant
            i <= k <= 10,
            exponent == doubling(i as nat),
            exponent <= 1024,
        decreases k - i,
    {
        proof {
            lemma_doubling_grows((i + 1) as nat, 10);
            assert(doubling(10) == 1024) by {
                reveal_with_fuel(doubling, 11);
            }
        }
        exponent = exponent * 2;
        i = i + 1;
    }
    let grown = match min_delay_ms.checked_mul(exponent) {
        Some(value) => value,
        None => u64::MAX,
    };
    if grown <= max_delay_ms {
        grown
    } else {
        max_delay_ms
    }
}

/// Later attempts never wait less, and no attempt waits longer than the
/// maximum delay.
pub proof fn lemma_backoff_monotone(a1: u32, a2: u32, min_delay_ms: u64, max_delay_ms: u64)
    requires
        a1 <= a2,
    ensures
        backoff(a1, min_delay_ms, max_delay_ms) <= backoff(a2, min_delay_ms, max_delay_ms),
        backoff(a2, min_delay_ms, max_delay_ms) <= max_delay_ms,
{
    let k1: nat = if a1 <= 10 { a1 as nat } else { 10 };
    let k2: nat = if a2 <= 10 { a2 as nat } else { 10 };
    lemma_doubling_grows(k1, k2);
    let d1 = doubling(k1);
    let d2 = doubling(k2);
    assert(min_delay_ms * d1 <= min_delay_ms * d2) by (nonlinear_arith)
        requires
            d1 <= d2,
    ;
}

} // verus!
