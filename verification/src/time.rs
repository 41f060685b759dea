//! Delays measured with the ARM generic timer.

use vstd::prelude::*;

verus! {

/// Counter value at which a wait of `n` milliseconds started at `now`
/// ends, for a counter running at `freq` hertz.
pub open spec fn deadline(now: u64, freq: u64, n: u64) -> int {
    now + ((freq / 1000) * n) / 1000
}

/// The counter value to wait for; the arithmetic must fit in 64 bits.
pub fn wait_deadline(now: u64, freq: u64, n: u64) -> (t: u64)
    requires
        (freq / 1000) * n <= u64::MAX,
        deadline(now, freq, n) <= u64::MAX,
    ensures
        t == deadline(now, freq, n),
        t >= now,
{
    now + ((freq / 1000) * n) / 1000
}

/// Whether the wait is over: the counter has passed the deadline.
pub fn wait_over(counter: u64, t: u64) -> (r: bool)
    ensures
        r == (counter > t),
{
    counter > t
}

} // verus!
