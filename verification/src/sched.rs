//! Scheduler decisions.
//!
//! The pull loop runs on a fixed-interval tick with skip-missed-ticks
//! semantics: when a cycle overruns, the next tick fires at the next
//! boundary of the original schedule, never in a catch-up burst.  The
//! loop also warns — and only warns — when the gap between two ticks
//! exceeded the interval.  Both decisions are pure functions of
//! timestamps, taken here; waiting itself stays with the runtime.

use vstd::arithmetic::div_mod::{lemma_fundamental_div_mod, lemma_mod_division_less_than_divisor, lemma_mod_multiples_basic};
use vstd::prelude::*;

verus! {

/// The next tick of a schedule anchored at `start` with the given
/// interval, seen at time `now`: the earliest schedule boundary
/// strictly after `now`.  Every missed boundary is skipped — the result
/// lies on the schedule, after `now`, and within one interval of it, so
/// no burst of catch-up ticks can fire.
pub fn next_tick(start: u64, interval: u64, now: u64) -> (r: u64)
    requires
        interval > 0,
        now >= start,
        now <= u64::MAX - interval,
    ensures
        r > now,
        r - interval <= now,
        ((r - start) as int) % (interval as int) == 0,
{
    let elapsed = now - start;
    let rem = elapsed % interval;
    proof {
        let q = (elapsed as int) / (interval as int);
        lemma_mod_division_less_than_divisor(elapsed as int, interval as int);
        lemma_fundamental_div_mod(elapsed as int, interval as int);
        lemma_mod_multiples_basic(q + 1, interval as int);
        assert((interval as int) * q + (interval as int) == (q + 1) * (interval as int))
            by (nonlinear_arith);
        assert((elapsed - rem + interval) as int == (q + 1) * (interval as int));
    }
    now - rem + interval
}

/// Whether the gap since the previous tick exceeded the interval: the
/// cycle overran its schedule and the loop should warn, which is
/// observability only, never a failure.
pub fn tick_overrun(prev: u64, tick: u64, interval: u64) -> (r: bool)
    requires
        prev <= tick,
    ensures
        r == (tick - prev > interval),
{
    tick - prev > interval
}

} // verus!
