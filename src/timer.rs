//! Time readings and sleep decisions over the free-running counters.
//!
//! The counters are read by the caller; these functions combine readings
//! and decide when a busy-wait is over. Every counter wraps around, so
//! elapsed time is measured modulo 2^32.

use vstd::prelude::*;

verus! {

/// Ticks from `start` to `now` on a 32-bit counter that wraps around.
pub open spec fn elapsed(now: u32, start: u32) -> int {
    (now as int - start as int) % 0x1_0000_0000
}

/// Milliseconds from the RTC millisecond register and the shadow seconds
/// register (which holds the seconds latched by the millisecond read).
pub fn get_milliseconds(milli_seconds: u32, shadow_seconds: u32) -> (ms: u32)
    ensures
        ms == milli_seconds | (shadow_seconds << 10u32),
{
    milli_seconds | (shadow_seconds << 10u32)
}

/// Microseconds that have passed since the reading `base`, given the
/// reading `now` of the microsecond counter.
pub fn get_time_since(now: u32, base: u32) -> (t: u32)
    ensures
        t == elapsed(now, base),
{
    if now >= base {
        now - base
    } else {
        now + (u32::MAX - base) + 1
    }
}

/// A wait of `duration` ticks begun at reading `start` is over at reading
/// `now`.
fn wait_is_over(start: u32, now: u32, duration: u32) -> (over: bool)
    ensures
        over == (elapsed(now, start) >= duration),
{
    get_time_since(now, start) >= duration
}

/// A sleep of `duration` seconds begun at seconds reading `start` is over
/// at reading `now`.
pub fn sleep(start: u32, now: u32, duration: u32) -> (over: bool)
    ensures
        over == (elapsed(now, start) >= duration),
{
    wait_is_over(start, now, duration)
}

/// A sleep of `duration` milliseconds begun at milliseconds reading
/// `start` is over at reading `now`.
pub fn msleep(start: u32, now: u32, duration: u32) -> (over: bool)
    ensures
        over == (elapsed(now, start) >= duration),
{
    wait_is_over(start, now, duration)
}

/// A sleep of `duration` microseconds begun at microseconds reading
/// `start` is over at reading `now`.
pub fn usleep(start: u32, now: u32, duration: u32) -> (over: bool)
    ensures
        over == (elapsed(now, start) >= duration),
{
    wait_is_over(start, now, duration)
}

} // verus!
