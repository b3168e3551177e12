//! Frame pacing of the capture loop.

use vstd::prelude::*;

verus! {

/// Milliseconds between frames at `max_fps` frames per second; a rate of 0
/// counts as 1.
pub open spec fn frame_delay_of(max_fps: u32) -> int {
    1000int / if max_fps == 0 { 1int } else { max_fps as int }
}

/// Nanoseconds in a millisecond.
pub open spec fn nanos_per_milli() -> int {
    1_000_000
}

/// The pause between two captured frames, in milliseconds.
pub fn frame_delay_ms(max_fps: u32) -> (d: u64)
    ensures
        d == frame_delay_of(max_fps),
        d <= 1000,
{
    let rate: u64 = if max_fps == 0 { 1 } else { max_fps as u64 };
    1000 / rate
}

/// How long the loop still sleeps after a frame that took `elapsed_nanos`,
/// when frames are `delay_ms` apart: the rest of the delay, or nothing when
/// the frame took the whole delay or longer.
pub fn remaining_sleep_nanos(delay_ms: u64, elapsed_nanos: u128) -> (r: Option<u128>)
    ensures
        elapsed_nanos < delay_ms * nanos_per_milli() ==> r == Some(
            (delay_ms * nanos_per_milli() - elapsed_nanos) as u128,
        ),
        elapsed_nanos >= delay_ms * nanos_per_milli() ==> r is None,
{
    let delay: u128 = delay_ms as u128 * 1_000_000;
    if elapsed_nanos < delay {
        Some(delay - elapsed_nanos)
    } else {
        None
    }
}

} // verus!
