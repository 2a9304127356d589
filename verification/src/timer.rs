//! The two timers. Each counts down to zero at the rate of the clock that
//! drives it, one step for every tick, and stays at zero.

use vstd::prelude::*;

verus! {

/// A timer's value after one tick.
pub open spec fn ticked(value: u8) -> u8 {
    if value > 0 {
        (value - 1) as u8
    } else {
        0u8
    }
}

/// A timer's value after `ticks` ticks.
pub open spec fn ticked_times(value: u8, ticks: nat) -> u8
    decreases ticks,
{
    if ticks == 0 {
        value
    } else {
        ticked_times(ticked(value), (ticks - 1) as nat)
    }
}

/// One tick of the clock: each of the two timers that is above zero goes down
/// by one.
pub fn tick(delay: &mut u8, sound: &mut u8)
    ensures
        *final(delay) == ticked(*old(delay)),
        *final(sound) == ticked(*old(sound)),
{
    if *delay > 0 {
        *delay -= 1;
    }
    if *sound > 0 {
        *sound -= 1;
    }
}

/// Ticks never take a timer below zero: after `ticks` ticks a timer has gone
/// down by `ticks`, or has stopped at zero where it held less.
pub proof fn lemma_ticks_stop_at_zero(value: u8, ticks: nat)
    ensures
        ticked_times(value, ticks) == if value >= ticks {
            value - ticks
        } else {
            0
        },
    decreases ticks,
{
    if ticks > 0 {
        lemma_ticks_stop_at_zero(ticked(value), (ticks - 1) as nat);
    }
}

} // verus!
