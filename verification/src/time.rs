//! Time on the session clock, counted in nanoseconds since the session began.

use vstd::prelude::*;

verus! {

/// Nanoseconds in one second.
pub const NANOS_PER_SECOND: u64 = 1_000_000_000;

/// How long after a fire an oscillator still counts as flashing: 200 ms.
pub const FLASH_WINDOW: u64 = 200_000_000;

/// Delay between the first full convergence and the end of the session: 3 s.
pub const GRACE: u64 = 3_000_000_000;

/// How long the last picture stays up once the session has ended: 20 s.
pub const SHUTDOWN_TAIL: u64 = 20_000_000_000;

/// Pause between two frames, in milliseconds.
pub const FRAME_DELAY_MILLIS: u32 = 16;

/// A rate is a number of beats per minute multiplied by `RATE_SCALE`.
pub const RATE_SCALE: u64 = 100_000;

/// One minute in nanoseconds, multiplied by `RATE_SCALE`.
pub const SCALED_MINUTE: u64 = 6_000_000_000_000_000;

/// Time that has passed at `now` since `since`; zero where the clock ran backward.
pub open spec fn elapsed(now: u64, since: u64) -> nat {
    if now >= since {
        (now - since) as nat
    } else {
        0
    }
}

/// Time that has passed at `now` since `since`; zero where the clock ran backward.
pub fn elapsed_nanos(now: u64, since: u64) -> (d: u64)
    ensures
        d == elapsed(now, since),
{
    if now >= since {
        now - since
    } else {
        0
    }
}

/// Length in nanoseconds of one cycle at `rate`, rounded down. Zero for a zero rate.
pub open spec fn period_of_rate(rate: u64) -> nat {
    if rate == 0 {
        0
    } else {
        (SCALED_MINUTE as nat) / (rate as nat)
    }
}

} // verus!
