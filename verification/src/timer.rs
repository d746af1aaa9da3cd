use vstd::prelude::*;
use crate::config::CLOCK_FREQ;

verus! {

/// Timer interrupts per second.
pub const TICKS_PER_SEC: usize = 100;

/// Microseconds per second.
pub const MICRO_PER_SEC: usize = 1_000_000;

/// The time in microseconds that a reading `ticks` of the `time` counter
/// stands for.
pub fn get_time_us(ticks: usize) -> (us: usize)
    ensures
        us == ticks / (CLOCK_FREQ / MICRO_PER_SEC),
{
    ticks / (CLOCK_FREQ / MICRO_PER_SEC)
}

/// The compare value for the next timer interrupt, one tick period
/// (`CLOCK_FREQ / TICKS_PER_SEC` counter increments, 10 ms) after the
/// counter reading `now_ticks`; the caller hands it to the SBI timer.
pub fn set_next_trigger(now_ticks: usize) -> (deadline: usize)
    requires
        now_ticks + CLOCK_FREQ / TICKS_PER_SEC <= usize::MAX,
    ensures
        deadline == now_ticks + CLOCK_FREQ / TICKS_PER_SEC,
{
    now_ticks + CLOCK_FREQ / TICKS_PER_SEC
}

} // verus!
