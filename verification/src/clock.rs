use crate::config::Config;
use vstd::prelude::*;

verus! {

/// How long the pacer blocks after a tick whose work took `elapsed_ms`:
/// the remainder of the interval, or nothing when the tick overran.  An
/// overrun leaves no backlog of owed ticks.
pub open spec fn spec_sleep_remaining(elapsed_ms: u64, interval_ms: u64) -> u64 {
    if elapsed_ms < interval_ms {
        (interval_ms - elapsed_ms) as u64
    } else {
        0
    }
}

/// How long one loop iteration lasts under exact sleeping: the interval
/// when the work fits inside it, the work itself otherwise.
pub open spec fn tick_duration(work_ms: u64, interval_ms: u64) -> int {
    if work_ms < interval_ms {
        interval_ms as int
    } else {
        work_ms as int
    }
}

/// The start time of tick `i` on the ideal timeline: the loop begins at
/// `t0` and each iteration `k` lasts `tick_duration(works[k], interval)`.
/// Because the pacer re-bases on the actual start of each tick, a slow
/// tick lengthens its own iteration only and owes nothing to the next.
pub open spec fn tick_start(t0: int, works: Seq<u64>, interval_ms: u64, i: int) -> int
    decreases i,
{
    if i <= 0 {
        t0
    } else {
        tick_start(t0, works, interval_ms, i - 1) + tick_duration(works[i - 1], interval_ms)
    }
}

/// Pacing correctness, lower bound: successive tick start times are always
/// spaced by at least one tick interval, whatever the work took.
pub proof fn lemma_tick_spacing(t0: int, works: Seq<u64>, interval_ms: u64, i: int)
    requires
        0 <= i < works.len(),
    ensures
        tick_start(t0, works, interval_ms, i + 1) - tick_start(t0, works, interval_ms, i)
            >= interval_ms,
{
}

/// Pacing correctness, drift freedom: while every tick's work completes
/// within the interval, tick `n` starts exactly `n` intervals after the
/// first — the pacer accumulates no drift at all.
pub proof fn lemma_no_drift(t0: int, works: Seq<u64>, interval_ms: u64, n: int)
    requires
        0 <= n <= works.len(),
        forall|k: int| 0 <= k < n ==> works[k] <= interval_ms,
    ensures
        tick_start(t0, works, interval_ms, n) == t0 + n * interval_ms,
    decreases n,
{
    if n == 0 {
        assert(n * interval_ms == 0) by (nonlinear_arith)
            requires
                n == 0,
        {
        }
    } else {
        lemma_no_drift(t0, works, interval_ms, n - 1);
        assert((n - 1) * interval_ms + interval_ms == n * interval_ms) by (nonlinear_arith);
    }
}

/// A tick is exactly its work followed by its pacing sleep.
pub proof fn lemma_tick_decomposition(work_ms: u64, interval_ms: u64)
    ensures
        work_ms + spec_sleep_remaining(work_ms, interval_ms) == tick_duration(
            work_ms,
            interval_ms,
        ),
{
}

/// The configured tick interval, in milliseconds.
pub fn tick_interval_ms(config: &Config) -> (r: u64)
    ensures
        r == config.tick_rate_ms,
{
    config.tick_rate_ms
}

/// The pacing decision for one tick: how long to block before the next
/// tick starts.  A tick that overran its interval proceeds immediately.
pub fn sleep_remaining_ms(elapsed_ms: u64, interval_ms: u64) -> (r: u64)
    ensures
        r == spec_sleep_remaining(elapsed_ms, interval_ms),
{
    if elapsed_ms < interval_ms {
        interval_ms - elapsed_ms
    } else {
        0
    }
}

/// The simulation step for a measured real-time gap: the whole gap, capped
/// at the largest representable step.  The pacer re-bases its reference
/// instant on every tick, so the gap never compounds.
pub fn dt_from_elapsed_ms(elapsed_ms: u64) -> (dt: u32)
    ensures
        elapsed_ms <= u32::MAX ==> dt == elapsed_ms,
        elapsed_ms > u32::MAX ==> dt == u32::MAX,
{
    if elapsed_ms > u32::MAX as u64 {
        u32::MAX
    } else {
        elapsed_ms as u32
    }
}

} // verus!
