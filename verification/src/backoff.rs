//! Retry delays for queued mutations.

use vstd::prelude::*;

verus! {

/// Delay before the first retry, doubled once per attempt already made.
pub const BASE_DELAY_SECS: u64 = 15;

/// No retry waits longer than this.
pub const MAX_DELAY_SECS: u64 = 1800;

/// A mutation that has been attempted this many times is given up.
pub const MAX_ATTEMPTS: u32 = 8;

/// Two to the power `e`.
pub open spec fn pow2(e: nat) -> nat
    decreases e,
{
    if e == 0 {
        1
    } else {
        2 * pow2((e - 1) as nat)
    }
}

/// `attempts` brought into the range `1..=MAX_ATTEMPTS`.
pub open spec fn clamp_attempts(attempts: int) -> nat {
    if attempts < 1 {
        1
    } else if attempts > MAX_ATTEMPTS as int {
        MAX_ATTEMPTS as nat
    } else {
        attempts as nat
    }
}

/// The delay in seconds after `attempts` attempts: fifteen seconds doubled per
/// attempt, at most half an hour.
pub open spec fn backoff_secs(attempts: int) -> nat {
    let raw = BASE_DELAY_SECS as nat * pow2(clamp_attempts(attempts));
    if raw < MAX_DELAY_SECS as nat {
        raw
    } else {
        MAX_DELAY_SECS as nat
    }
}

proof fn lemma_pow2_values()
    ensures
        pow2(0) == 1,
        pow2(1) == 2,
        pow2(2) == 4,
        pow2(3) == 8,
        pow2(4) == 16,
        pow2(5) == 32,
        pow2(6) == 64,
        pow2(7) == 128,
        pow2(8) == 256,
{
    reveal_with_fuel(pow2, 10);
}

proof fn lemma_pow2_monotone(a: nat, b: nat)
    requires
        a <= b,
    ensures
        pow2(a) <= pow2(b),
    decreases b,
{
    if a < b {
        lemma_pow2_monotone(a, (b - 1) as nat);
    }
}

/// For one to eight attempts the delay is fifteen seconds times two to the
/// power of the attempts, or half an hour where that would be more: 30, 60,
/// 120, 240, 480 and 960 seconds, then 1800.
pub proof fn lemma_backoff_formula(attempts: int)
    requires
        1 <= attempts <= 8,
    ensures
        backoff_secs(attempts) == if 15 * pow2(attempts as nat) < 1800 {
            15 * pow2(attempts as nat)
        } else {
            1800
        },
        attempts == 1 ==> backoff_secs(attempts) == 30,
        attempts == 2 ==> backoff_secs(attempts) == 60,
        attempts == 3 ==> backoff_secs(attempts) == 120,
        attempts == 4 ==> backoff_secs(attempts) == 240,
        attempts == 5 ==> backoff_secs(attempts) == 480,
        attempts == 6 ==> backoff_secs(attempts) == 960,
        attempts >= 7 ==> backoff_secs(attempts) == 1800,
{
    lemma_pow2_values();
}

/// The delay never shrinks as the attempts grow.
pub proof fn lemma_backoff_monotone(fewer: int, more: int)
    requires
        fewer <= more,
    ensures
        backoff_secs(fewer) <= backoff_secs(more),
{
    lemma_pow2_monotone(clamp_attempts(fewer), clamp_attempts(more));
    assert(15 * pow2(clamp_attempts(fewer)) <= 15 * pow2(clamp_attempts(more))) by (nonlinear_arith)
        requires
            pow2(clamp_attempts(fewer)) <= pow2(clamp_attempts(more)),
    ;
}

/// No delay is shorter than thirty seconds or longer than half an hour.
pub proof fn lemma_backoff_bounds(attempts: int)
    ensures
        30 <= backoff_secs(attempts) <= MAX_DELAY_SECS,
{
    lemma_pow2_monotone(1, clamp_attempts(attempts));
    lemma_pow2_values();
    assert(15 * pow2(1) <= 15 * pow2(clamp_attempts(attempts))) by (nonlinear_arith)
        requires
            pow2(1) <= pow2(clamp_attempts(attempts)),
    ;
}

/// Computes the retry delay in seconds after `attempts` attempts.
pub fn backoff_delay_secs(attempts: u32) -> (delay: u64)
    ensures
        delay == backoff_secs(attempts as int),
        30 <= delay <= MAX_DELAY_SECS,
{
    proof {
        lemma_pow2_values();
    }
    let capped: u32 = if attempts < 1 {
        1
    } else if attempts > MAX_ATTEMPTS {
        MAX_ATTEMPTS
    } else {
        attempts
    };
    let mut raw: u64 = BASE_DELAY_SECS;
    let mut i: u32 = 0;
    while i < capped
        invariant
            i <= capped <= MAX_ATTEMPTS,
            raw == BASE_DELAY_SECS * pow2(i as nat),
            raw <= BASE_DELAY_SECS * 256,
        decreases capped - i,
    {
        proof {
            lemma_pow2_values();
            reveal_with_fuel(pow2, 2);
        }
        raw = raw * 2;
        i = i + 1;
    }
    if raw < MAX_DELAY_SECS {
        raw
    } else {
        MAX_DELAY_SECS
    }
}

} // verus!
