//! Restartable countdown timers.
//!
//! A [`Timer`] counts elapsed integer time units against a fixed period and
//! reports, on each tick, how many times the countdown crossed zero during
//! that tick.  A repeating timer rolls the excess into the next cycle; a
//! one-shot timer stays finished once triggered.

use vstd::prelude::*;

verus! {

use vstd::arithmetic::div_mod::lemma_basic_div;
use vstd::arithmetic::div_mod::lemma_fundamental_div_mod;
use vstd::arithmetic::div_mod::lemma_hoist_over_denominator;
use vstd::arithmetic::div_mod::lemma_mod_division_less_than_divisor;

/// Whether a timer stops at its first completion or restarts automatically.
#[derive(Clone, Copy, PartialEq, Eq, Structural, Debug)]
pub enum TimerMode {
    /// The countdown triggers once and then stays finished.
    Once,
    /// The countdown rolls any excess into the next cycle and keeps going.
    Repeating,
}

/// A restartable countdown over integer time units.
///
/// `elapsed` is the progress into the current cycle.  For a repeating timer
/// it is always strictly below `period`; for a one-shot timer it is capped
/// at `period`, and reaching the cap is what "finished" means.
#[derive(Clone, Copy, PartialEq, Eq, Structural, Debug)]
pub struct Timer {
    /// Length of one countdown cycle; always at least one time unit.
    pub period: u64,
    /// Progress into the current cycle.
    pub elapsed: u64,
    /// One-shot or repeating.
    pub mode: TimerMode,
}

impl Timer {
    /// Well-formedness: the period is positive and the progress lies inside
    /// the current cycle.
    pub open spec fn wf(self) -> bool {
        &&& self.period >= 1
        &&& self.mode is Repeating ==> self.elapsed < self.period
        &&& self.mode is Once ==> self.elapsed <= self.period
    }

    /// A one-shot timer is finished once its progress reaches the period.
    pub open spec fn spec_finished(self) -> bool {
        self.mode is Once && self.elapsed == self.period
    }

    /// How many times a tick with `delta` completes the countdown.
    pub open spec fn spec_completions(self, delta: u64) -> int {
        if self.mode is Repeating {
            (self.elapsed + delta) / (self.period as int)
        } else if self.spec_finished() {
            0
        } else if self.elapsed + delta >= self.period {
            1
        } else {
            0
        }
    }

    /// The timer state after a tick with `delta`.
    pub open spec fn spec_ticked(self, delta: u64) -> Timer {
        if self.mode is Repeating {
            Timer {
                elapsed: ((self.elapsed + delta) % (self.period as int)) as u64,
                ..self
            }
        } else if self.elapsed + delta >= self.period {
            Timer { elapsed: self.period, ..self }
        } else {
            Timer { elapsed: (self.elapsed + delta) as u64, ..self }
        }
    }

    /// Create a timer with `period` time units of countdown.
    pub fn new(period: u64, mode: TimerMode) -> (t: Timer)
        requires
            period >= 1,
        ensures
            t.wf(),
            t.period == period,
            t.elapsed == 0,
            t.mode == mode,
    {
        Timer { period, elapsed: 0, mode }
    }

    /// Advance the countdown by `delta` time units and return how many
    /// times it completed during this tick.
    ///
    /// A repeating timer rolls the excess into the next cycle, so a single
    /// large `delta` may complete it several times.  A one-shot timer
    /// completes at most once and then reports zero forever.
    pub fn tick(&mut self, delta: u64) -> (completions: u64)
        requires
            old(self).wf(),
        ensures
            final(self).wf(),
            *final(self) == old(self).spec_ticked(delta),
            completions == old(self).spec_completions(delta),
    {
        match self.mode {
            TimerMode::Repeating => {
                let total: u128 = (self.elapsed as u128) + (delta as u128);
                let count: u128 = total / (self.period as u128);
                let rem: u128 = total % (self.period as u128);
                proof {
                    let t = total as int;
                    let p = self.period as int;
                    let d = delta as int;
                    lemma_mod_division_less_than_divisor(t, p);
                    lemma_fundamental_div_mod(t, p);
                    assert(t / p <= d) by (nonlinear_arith)
                        requires
                            p >= 1,
                            d >= 0,
                            t / p >= 0,
                            p * (t / p) <= t,
                            t <= d + p - 1,
                    ;
                }
                self.elapsed = rem as u64;
                count as u64
            },
            TimerMode::Once => {
                if self.elapsed == self.period {
                    0
                } else if delta >= self.period - self.elapsed {
                    self.elapsed = self.period;
                    1
                } else {
                    self.elapsed = self.elapsed + delta;
                    0
                }
            },
        }
    }

    /// Whether a one-shot timer has already triggered.
    pub fn finished(&self) -> (r: bool)
        ensures
            r == self.spec_finished(),
    {
        match self.mode {
            TimerMode::Once => self.elapsed == self.period,
            TimerMode::Repeating => false,
        }
    }
}

/// Ticking preserves well-formedness and touches neither period nor mode.
pub proof fn lemma_spec_ticked_wf(t: Timer, delta: u64)
    requires
        t.wf(),
    ensures
        t.spec_ticked(delta).wf(),
        t.spec_ticked(delta).period == t.period,
        t.spec_ticked(delta).mode == t.mode,
{
    if t.mode is Repeating {
        lemma_mod_division_less_than_divisor(t.elapsed + delta, t.period as int);
    }
}

/// Sum of a sequence of tick deltas, as a mathematical integer.
pub open spec fn seq_sum(deltas: Seq<u64>) -> int
    decreases deltas.len(),
{
    if deltas.len() == 0 {
        0
    } else {
        deltas[0] + seq_sum(deltas.drop_first())
    }
}

/// Total completions a timer reports when ticked with each delta of
/// `deltas` in turn.
pub open spec fn spec_total_completions(t: Timer, deltas: Seq<u64>) -> int
    decreases deltas.len(),
{
    if deltas.len() == 0 {
        0
    } else {
        t.spec_completions(deltas[0])
            + spec_total_completions(t.spec_ticked(deltas[0]), deltas.drop_first())
    }
}

/// A sum of unsigned deltas is never negative.
pub proof fn lemma_seq_sum_nonneg(deltas: Seq<u64>)
    ensures
        seq_sum(deltas) >= 0,
    decreases deltas.len(),
{
    if deltas.len() > 0 {
        lemma_seq_sum_nonneg(deltas.drop_first());
    }
}

/// Over any sequence of tick deltas, a repeating timer reports exactly one
/// completion for each whole period contained in its starting progress plus
/// the total elapsed time.
pub proof fn lemma_repeating_completions(t: Timer, deltas: Seq<u64>)
    requires
        t.wf(),
        t.mode is Repeating,
    ensures
        spec_total_completions(t, deltas) == (t.elapsed + seq_sum(deltas)) / (t.period as int),
    decreases deltas.len(),
{
    let p = t.period as int;
    if deltas.len() == 0 {
        lemma_basic_div(t.elapsed as int, p);
    } else {
        let d0 = deltas[0];
        let a = t.elapsed + d0;
        let t1 = t.spec_ticked(d0);
        lemma_mod_division_less_than_divisor(a, p);
        lemma_repeating_completions(t1, deltas.drop_first());
        let s = seq_sum(deltas.drop_first());
        lemma_seq_sum_nonneg(deltas.drop_first());
        // total = a / p + (a % p + s) / p; hoist the whole periods of `a`
        // back over the denominator to recombine.
        lemma_hoist_over_denominator(a % p + s, a / p, t.period as nat);
        lemma_fundamental_div_mod(a, p);
        assert((a % p + s) + (a / p) * p == a + s) by (nonlinear_arith)
            requires
                a == p * (a / p) + a % p,
        ;
    }
}

/// Chunking invariance: a repeating timer with period `P`, starting at the
/// top of its cycle and ticked with deltas summing to exactly `k * P`,
/// reports `k` completions in total, however the deltas are chunked.
pub proof fn lemma_repeating_rechunk(t: Timer, deltas: Seq<u64>, k: int)
    requires
        t.wf(),
        t.mode is Repeating,
        t.elapsed == 0,
        seq_sum(deltas) == k * (t.period as int),
    ensures
        spec_total_completions(t, deltas) == k,
{
    let p = t.period as int;
    lemma_repeating_completions(t, deltas);
    lemma_seq_sum_nonneg(deltas);
    assert(k >= 0) by (nonlinear_arith)
        requires
            k * p >= 0,
            p >= 1,
    ;
    assert((p * k) / p == k) by {
        vstd::arithmetic::div_mod::lemma_div_multiples_vanish(k, p);
    }
    assert(p * k == k * p) by (nonlinear_arith);
}

} // verus!
