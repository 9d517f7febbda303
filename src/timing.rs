//! Baud-rate divisor and the settle times derived from the baud rate.

use vstd::prelude::*;
use vstd::arithmetic::div_mod::{
    lemma_div_is_ordered,
    lemma_div_is_ordered_by_denominator,
    lemma_fundamental_div_mod,
};

verus! {

/// Frequency in Hz of the clock that feeds the UARTs.
pub const SOURCE_CLOCK_HZ: u32 = 408_000_000;

/// Microseconds in one second.
pub const MICROS_PER_SECOND: u64 = 1_000_000;

/// Baud-rate divisor for `baud`: `SOURCE_CLOCK_HZ / (16 * baud)`, rounded
/// to nearest by the `8 * baud` bias in the numerator.
pub open spec fn divisor_of(baud: int) -> int {
    (8 * baud + SOURCE_CLOCK_HZ) / (16 * baud)
}

/// `a / d`, rounded up.
pub open spec fn ceil_div(a: int, d: int) -> int {
    (a + d - 1) / d
}

/// Microseconds taken by `n` symbols at `baud`, rounded up.
pub open spec fn symbols_time(baud: int, n: int) -> int {
    ceil_div(n * MICROS_PER_SECOND, baud)
}

/// Microseconds taken by `n` sampling cycles (16 per symbol) at `baud`,
/// rounded up.
pub open spec fn cycles_time(baud: int, n: int) -> int {
    ceil_div(n * MICROS_PER_SECOND, 16 * baud)
}

/// Computes the divisor that programs the UART for `baud`.
pub fn divisor(baud: u32) -> (d: u32)
    requires
        baud > 0,
    ensures
        d == divisor_of(baud as int),
{
    let num: u64 = 8 * (baud as u64) + SOURCE_CLOCK_HZ as u64;
    let den: u64 = 16 * (baud as u64);
    proof {
        lemma_div_is_ordered_by_denominator(num as int, 16, den as int);
    }
    (num / den) as u32
}

/// Microseconds that `amount` symbols take at `baud`, rounded up.
pub fn wait_symbols(baud: u32, amount: u32) -> (t: u64)
    requires
        baud > 0,
    ensures
        t == symbols_time(baud as int, amount as int),
{
    let num: u64 = (amount as u64) * MICROS_PER_SECOND + (baud as u64) - 1;
    num / (baud as u64)
}

/// Microseconds that `amount` sampling cycles take at `baud`, rounded up.
pub fn wait_cycles(baud: u32, amount: u32) -> (t: u64)
    requires
        baud > 0,
    ensures
        t == cycles_time(baud as int, amount as int),
{
    let den: u64 = 16 * (baud as u64);
    let num: u64 = (amount as u64) * MICROS_PER_SECOND + den - 1;
    num / den
}

/// `ceil_div(a, d)` times `d` lies in `[a, a + d)`.
proof fn lemma_ceil_div_bounds(a: int, d: int)
    requires
        0 <= a,
        0 < d,
    ensures
        ceil_div(a, d) * d >= a,
        ceil_div(a, d) * d < a + d,
        ceil_div(a, d) >= 0,
{
    let q = ceil_div(a, d);
    lemma_fundamental_div_mod(a + d - 1, d);
    assert(q * d == d * q) by (nonlinear_arith);
    lemma_div_is_ordered(0, a + d - 1, d);
}

/// A rounded-up quotient grows with the dividend and shrinks as the
/// divisor grows.
proof fn lemma_ceil_div_monotonic(a1: int, a2: int, d1: int, d2: int)
    requires
        0 <= a1 <= a2,
        0 < d1 <= d2,
    ensures
        ceil_div(a1, d1) <= ceil_div(a2, d1),
        ceil_div(a1, d2) <= ceil_div(a1, d1),
{
    lemma_div_is_ordered(a1 + d1 - 1, a2 + d1 - 1, d1);
    lemma_ceil_div_bounds(a1, d1);
    lemma_ceil_div_bounds(a1, d2);
    let q1 = ceil_div(a1, d1);
    let q2 = ceil_div(a1, d2);
    assert(q2 <= q1) by (nonlinear_arith)
        requires
            q1 >= 0,
            q1 * d1 >= a1,
            q2 * d2 < a1 + d2,
            0 < d1 <= d2,
    {
        assert(q1 * d2 >= q1 * d1);
        assert(q2 * d2 < (q1 + 1) * d2);
    }
}

/// The divisor rounds `SOURCE_CLOCK_HZ / (16 * baud)` to the nearest
/// integer: `16 * baud * divisor` is within `8 * baud` of the clock rate.
pub proof fn lemma_divisor_rounds_to_nearest(baud: int)
    requires
        baud > 0,
    ensures
        16 * baud * divisor_of(baud) <= SOURCE_CLOCK_HZ + 8 * baud,
        16 * baud * divisor_of(baud) > SOURCE_CLOCK_HZ - 8 * baud,
{
    let n = 8 * baud + SOURCE_CLOCK_HZ;
    let d = 16 * baud;
    lemma_fundamental_div_mod(n, d);
    assert(16 * baud * divisor_of(baud) == d * (n / d)) by (nonlinear_arith)
        requires
            d == 16 * baud,
            divisor_of(baud) == n / d,
    ;
}

/// Settle times grow with the number of symbols or cycles waited for, and
/// shrink as the baud rate grows.
pub proof fn lemma_wait_times_monotonic(baud1: int, baud2: int, n1: int, n2: int)
    requires
        0 < baud1 <= baud2,
        0 <= n1 <= n2,
    ensures
        symbols_time(baud1, n1) <= symbols_time(baud1, n2),
        cycles_time(baud1, n1) <= cycles_time(baud1, n2),
        symbols_time(baud2, n1) <= symbols_time(baud1, n1),
        cycles_time(baud2, n1) <= cycles_time(baud1, n1),
{
    assert(n1 * MICROS_PER_SECOND <= n2 * MICROS_PER_SECOND) by (nonlinear_arith)
        requires
            0 <= n1 <= n2,
    ;
    lemma_ceil_div_monotonic(n1 * MICROS_PER_SECOND, n2 * MICROS_PER_SECOND, baud1, baud2);
    lemma_ceil_div_monotonic(
        n1 * MICROS_PER_SECOND,
        n2 * MICROS_PER_SECOND,
        16 * baud1,
        16 * baud2,
    );
}

} // verus!
