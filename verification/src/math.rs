//! Fixed-point scale and clamped elapsed time: the arithmetic primitives the
//! accrual calculator is built from.

use vstd::prelude::*;
use vstd::math::{max, min};

verus! {

/// Largest number of token decimals whose scale `10^n` still fits in the
/// wide (`u128`) arithmetic domain.
pub const MAX_DECIMALS: u8 = 38;

/// `10^n`, the fixed-point scale factor of a token with `n` decimal places.
pub open spec fn pow10(n: nat) -> nat
    decreases n,
{
    if n == 0 {
        1
    } else {
        10 * pow10((n - 1) as nat)
    }
}

pub proof fn lemma_pow10_pos(n: nat)
    ensures
        pow10(n) >= 1,
    decreases n,
{
    if n > 0 {
        lemma_pow10_pos((n - 1) as nat);
    }
}

pub proof fn lemma_pow10_monotone(a: nat, b: nat)
    requires
        a <= b,
    ensures
        pow10(a) <= pow10(b),
    decreases b,
{
    if a < b {
        lemma_pow10_monotone(a, (b - 1) as nat);
        lemma_pow10_pos((b - 1) as nat);
    }
}

/// The scale of the largest supported decimals value, written out.
pub proof fn lemma_pow10_max_decimals()
    ensures
        pow10(MAX_DECIMALS as nat) == 100_000_000_000_000_000_000_000_000_000_000_000_000int,
{
    reveal_with_fuel(pow10, 40);
}

/// Computes `10^n` for a decimals value within the supported range.
pub fn pow10_u128(n: u8) -> (r: u128)
    requires
        n <= MAX_DECIMALS,
    ensures
        r == pow10(n as nat),
        1 <= r,
{
    let mut m: u128 = 1;
    let mut i: u8 = 0;
    while i < n
        invariant
            i <= n <= MAX_DECIMALS,
            m == pow10(i as nat),
        decreases n - i,
    {
        proof {
            assert(pow10((i + 1) as nat) == 10 * pow10(i as nat));
            lemma_pow10_monotone((i + 1) as nat, MAX_DECIMALS as nat);
            lemma_pow10_max_decimals();
        }
        m = m * 10;
        i = i + 1;
    }
    proof {
        lemma_pow10_pos(n as nat);
    }
    m
}

/// Seconds of staked time credited for the window from `last` to `now`:
/// never negative (a clock that went backwards earns nothing) and never more
/// than the policy's cap window.
pub open spec fn capped_elapsed(now: int, last: int, cap: int) -> int {
    min(max(now - last, 0), cap)
}

/// Computes [`capped_elapsed`]; the subtraction is carried out in `i128`, so
/// it neither wraps nor saturates before the clamp is applied.
pub fn capped_elapsed_seconds(now: i64, last: i64, cap: i64) -> (r: i64)
    requires
        0 <= cap,
    ensures
        r == capped_elapsed(now as int, last as int, cap as int),
        0 <= r <= cap,
{
    let diff: i128 = (now as i128) - (last as i128);
    if diff <= 0 {
        0
    } else if diff >= (cap as i128) {
        cap
    } else {
        diff as i64
    }
}

/// Multiplying a non-negative value by a factor between two bounds keeps the
/// product between the corresponding products.
pub proof fn lemma_mul_factor_ordered(a: int, b1: int, b2: int) by (nonlinear_arith)
    requires
        0 <= a,
        0 <= b1 <= b2,
    ensures
        0 <= a * b1 <= a * b2,
{
}

} // verus!
