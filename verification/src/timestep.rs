use vstd::prelude::*;
use vstd::arithmetic::div_mod::{
    lemma_add_mod_noop_right, lemma_basic_div, lemma_fundamental_div_mod,
    lemma_fundamental_div_mod_converse, lemma_hoist_over_denominator, lemma_mod_bound,
    lemma_small_mod,
};

verus! {

/// The simulation runs at a constant rate of sixty ticks per second.
pub const TICKS_PER_SECOND: u64 = 60;

/// One simulation tick lasts one sixtieth of a second, in whole nanoseconds.
pub const TICK_PERIOD_NANOS: u64 = 1_000_000_000 / 60;

/// The sum of a sequence of wall-clock deltas, in nanoseconds.
pub open spec fn total_nanos(deltas: Seq<u64>) -> int
    decreases deltas.len(),
{
    if deltas.len() == 0 {
        0
    } else {
        deltas[0] + total_nanos(deltas.drop_first())
    }
}

/// One redraw of the ideal accumulator, over unbounded integers: the delta
/// joins the accumulator, as many whole periods as fit are drained and each
/// is counted as one tick. Result: (accumulator, tick count).
pub open spec fn stepped(period: int, acc: int, ticks: int, delta: int) -> (int, int) {
    ((acc + delta) % period, ticks + (acc + delta) / period)
}

/// The (accumulator, tick count) state reached after a whole sequence of
/// wall-clock deltas, delivered first to last.
pub open spec fn stepped_trace(period: int, acc: int, ticks: int, deltas: Seq<u64>) -> (int, int)
    decreases deltas.len(),
{
    if deltas.len() == 0 {
        (acc, ticks)
    } else {
        let s = stepped(period, acc, ticks, deltas[0] as int);
        stepped_trace(period, s.0, s.1, deltas.drop_first())
    }
}

/// Decouples the irregular wall-clock delivery of redraws from a constant
/// simulation rate: leftover wall time is carried in an accumulator, and one
/// tick is counted for every whole period that has elapsed, no matter how
/// the elapsed time was split across redraws.
pub struct FixedTimestep {
    pub period_nanos: u64,
    pub accumulator_nanos: u64,
    pub ticks: u64,
}

impl FixedTimestep {
    /// The period is positive and the accumulator always holds less than one
    /// whole period (anything more would have been turned into ticks).
    pub open spec fn wf(&self) -> bool {
        &&& 0 < self.period_nanos
        &&& self.accumulator_nanos < self.period_nanos
    }

    pub fn new(period_nanos: u64) -> (t: FixedTimestep)
        requires
            0 < period_nanos,
        ensures
            t.period_nanos == period_nanos,
            t.accumulator_nanos == 0,
            t.ticks == 0,
            t.wf(),
    {
        FixedTimestep { period_nanos, accumulator_nanos: 0, ticks: 0 }
    }

    /// Add one wall-clock delta and run every tick that is now due: the tick
    /// count grows by exactly the number of whole periods in the accumulated
    /// time, and the remainder stays in the accumulator. Returns how many
    /// ticks ran (possibly zero).
    pub fn advance(&mut self, delta_nanos: u64) -> (ran: u64)
        requires
            old(self).wf(),
            old(self).accumulator_nanos + delta_nanos <= u64::MAX,
            old(self).ticks + (old(self).accumulator_nanos + delta_nanos) / (
            old(self).period_nanos as int) <= u64::MAX,
        ensures
            final(self).period_nanos == old(self).period_nanos,
            ran == (old(self).accumulator_nanos + delta_nanos) / (old(self).period_nanos as int),
            final(self).accumulator_nanos == (old(self).accumulator_nanos + delta_nanos) % (
            old(self).period_nanos as int),
            final(self).ticks == old(self).ticks + ran,
            final(self).wf(),
    {
        let total: u64 = self.accumulator_nanos + delta_nanos;
        let period: u64 = self.period_nanos;
        let mut acc: u64 = total;
        let mut ran: u64 = 0;
        while acc >= period
            invariant
                0 < period,
                ran * period + acc == total,
            decreases acc,
        {
            proof {
                assert(ran < total) by (nonlinear_arith)
                    requires
                        ran * period + acc == total,
                        1 <= period,
                        1 <= acc,
                        0 <= ran,
                ;
                assert((ran + 1) * period + (acc - period) == ran * period + acc)
                    by (nonlinear_arith);
            }
            acc = acc - period;
            ran = ran + 1;
        }
        proof {
            lemma_fundamental_div_mod_converse(total as int, period as int, ran as int, acc as int);
        }
        self.accumulator_nanos = acc;
        self.ticks = self.ticks + ran;
        ran
    }
}

/// Helper for the determinism law: from any well-formed carry-over, the state
/// after a delta sequence is determined by the starting state and the total
/// of the deltas alone.
pub proof fn lemma_trace_from_carry(period: int, acc: int, ticks: int, deltas: Seq<u64>)
    requires
        0 < period,
        0 <= acc < period,
    ensures
        stepped_trace(period, acc, ticks, deltas).1 == ticks + (acc + total_nanos(deltas))
            / period,
        stepped_trace(period, acc, ticks, deltas).0 == (acc + total_nanos(deltas)) % period,
    decreases deltas.len(),
{
    if deltas.len() == 0 {
        lemma_basic_div(acc, period);
        lemma_small_mod(acc as nat, period as nat);
    } else {
        let d = deltas[0] as int;
        let joined = acc + d;
        let s = stepped(period, acc, ticks, d);
        lemma_mod_bound(joined, period);
        lemma_trace_from_carry(period, s.0, s.1, deltas.drop_first());
        let rest = total_nanos(deltas.drop_first());
        lemma_fundamental_div_mod(joined, period);
        lemma_hoist_over_denominator(joined % period + rest, joined / period, period as nat);
        lemma_add_mod_noop_right(rest, joined, period);
    }
}

/// Law: fixed-timestep accounting is deterministic. Starting from an empty
/// accumulator and tick count zero, after any sequence of wall-clock deltas
/// the cumulative tick count equals the total elapsed time divided by the
/// period, and the accumulator holds the remainder -- independent of how the
/// elapsed time was split across redraws.
pub proof fn lemma_ticks_determined_by_total(period: int, deltas: Seq<u64>)
    requires
        0 < period,
    ensures
        stepped_trace(period, 0, 0, deltas).1 == total_nanos(deltas) / period,
        stepped_trace(period, 0, 0, deltas).0 == total_nanos(deltas) % period,
{
    lemma_trace_from_carry(period, 0, 0, deltas);
}

} // verus!
