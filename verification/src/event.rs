//! The timing of the event loop.
//!
//! The loop itself waits for the terminal; when it has to wake up and
//! whether a tick is due is decided here.

use vstd::prelude::*;

verus! {

/// Milliseconds between two ticks, by default.
pub const DEFAULT_TICK_RATE: u64 = 1000;

/// Seconds between two rounds of telemetry.
pub const TELEMETRY_POLL_SECS: u64 = 30;

/// How long the loop may wait for input before the next tick is due.
pub open spec fn time_to_tick(tick_rate_ms: u64, elapsed_ms: u64) -> u64 {
    if elapsed_ms >= tick_rate_ms {
        0
    } else {
        (tick_rate_ms - elapsed_ms) as u64
    }
}

/// How long to wait for input, given how long ago the last tick was.
pub fn poll_timeout_ms(tick_rate_ms: u64, elapsed_ms: u64) -> (r: u64)
    ensures
        r == time_to_tick(tick_rate_ms, elapsed_ms),
{
    if elapsed_ms >= tick_rate_ms {
        0
    } else {
        tick_rate_ms - elapsed_ms
    }
}

/// Whether a tick is due, given how long ago the last one was.
pub fn tick_due(tick_rate_ms: u64, elapsed_ms: u64) -> (b: bool)
    ensures
        b == (elapsed_ms >= tick_rate_ms),
        b == (time_to_tick(tick_rate_ms, elapsed_ms) == 0),
{
    elapsed_ms >= tick_rate_ms
}

} // verus!
