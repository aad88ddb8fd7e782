//! Scripted enemy movement: a cyclic sequence of velocities.
//!
//! A [`MovementPattern`] holds an ordered list of scalar velocities, the
//! index of the current one, and a repeating advance timer.  The index
//! moves forward one position (wrapping around) for each completion of the
//! advance timer, while the current velocity itself is read every tick —
//! how often the direction changes is decoupled from how often the enemy
//! moves.

use vstd::prelude::*;

verus! {

use vstd::arithmetic::div_mod::lemma_add_mod_noop;
use vstd::arithmetic::div_mod::lemma_mod_add_multiples_vanish;
use vstd::arithmetic::div_mod::lemma_mod_division_less_than_divisor;
use vstd::arithmetic::div_mod::lemma_mod_twice;
use vstd::arithmetic::div_mod::lemma_small_mod;
use crate::timer::Timer;
use crate::timer::TimerMode;
use crate::timer::seq_sum;
use crate::timer::spec_total_completions;
use crate::timer::lemma_repeating_rechunk;

/// A cyclic sequence of scalar velocities advanced by its own repeating
/// timer.
pub struct MovementPattern {
    /// The scripted velocities, visited in order and then from the start
    /// again.
    pub velocities: Vec<i32>,
    /// Index of the velocity currently in force.
    pub index: usize,
    /// Repeating timer whose completions advance the index.
    pub advance_timer: Timer,
}

impl MovementPattern {
    /// Well-formedness: at least one velocity, the index in bounds, and a
    /// well-formed repeating advance timer.
    pub open spec fn wf(self) -> bool {
        &&& 1 <= self.velocities@.len() <= usize::MAX
        &&& self.index < self.velocities@.len()
        &&& self.advance_timer.wf()
        &&& self.advance_timer.mode is Repeating
    }

    /// The pattern after one tick of `delta`: the advance timer ticks, and
    /// the index moves forward once per completion, wrapping around.
    pub open spec fn spec_stepped(self, delta: u64) -> MovementPattern {
        MovementPattern {
            index: ((self.index + self.advance_timer.spec_completions(delta)) % (
            self.velocities@.len() as int)) as usize,
            advance_timer: self.advance_timer.spec_ticked(delta),
            ..self
        }
    }

    /// Build a pattern from its velocities, starting at the first, with a
    /// fresh repeating advance timer of `advance_period`.
    pub fn new(velocities: Vec<i32>, advance_period: u64) -> (p: MovementPattern)
        requires
            velocities@.len() >= 1,
            advance_period >= 1,
        ensures
            p.wf(),
            p.velocities == velocities,
            p.index == 0,
            p.advance_timer.period == advance_period,
            p.advance_timer.elapsed == 0,
            p.advance_timer.mode is Repeating,
    {
        // reading the length through the vector pins it into the usize
        // range, which the well-formedness bound needs
        let n: usize = velocities.len();
        assert(n >= 1);
        let advance_timer = Timer::new(advance_period, TimerMode::Repeating);
        MovementPattern { velocities, index: 0, advance_timer }
    }

    /// The velocity currently in force.
    pub fn current_velocity(&self) -> (v: i32)
        requires
            self.wf(),
        ensures
            v == self.velocities@[self.index as int],
    {
        self.velocities[self.index]
    }

    /// Advance the pattern by `delta` time units: tick the advance timer
    /// and move the index forward once per completion, wrapping around.
    pub fn step(&mut self, delta: u64)
        requires
            old(self).wf(),
        ensures
            final(self).wf(),
            *final(self) == old(self).spec_stepped(delta),
    {
        let completions = self.advance_timer.tick(delta);
        let len = self.velocities.len();
        let wrapped: u128 = ((self.index as u128) + (completions as u128)) % (len as u128);
        proof {
            lemma_mod_division_less_than_divisor(
                old(self).index + old(self).advance_timer.spec_completions(delta),
                len as int,
            );
        }
        self.index = wrapped as usize;
    }
}

/// The pattern after a whole sequence of tick deltas.
pub open spec fn spec_after_steps(p: MovementPattern, deltas: Seq<u64>) -> MovementPattern
    decreases deltas.len(),
{
    if deltas.len() == 0 {
        p
    } else {
        spec_after_steps(p.spec_stepped(deltas[0]), deltas.drop_first())
    }
}

/// Over any sequence of ticks, the index moves forward by exactly the
/// total number of advance-timer completions, wrapping around; the
/// velocities themselves never change.
pub proof fn lemma_steps_advance_by_completions(p: MovementPattern, deltas: Seq<u64>)
    requires
        p.wf(),
    ensures
        ({
            let q = spec_after_steps(p, deltas);
            &&& q.velocities == p.velocities
            &&& q.index == (p.index + spec_total_completions(p.advance_timer, deltas)) % (
            p.velocities@.len() as int)
            &&& q.wf()
        }),
    decreases deltas.len(),
{
    let len = p.velocities@.len() as int;
    if deltas.len() == 0 {
        lemma_small_mod(p.index as nat, len as nat);
    } else {
        let d0 = deltas[0];
        let c0 = p.advance_timer.spec_completions(d0);
        let p1 = p.spec_stepped(d0);
        lemma_mod_division_less_than_divisor(p.index + c0, len);
        crate::timer::lemma_spec_ticked_wf(p.advance_timer, d0);
        lemma_steps_advance_by_completions(p1, deltas.drop_first());
        let rest = spec_total_completions(p1.advance_timer, deltas.drop_first());
        // ((i + c0) % len + rest) % len == (i + c0 + rest) % len
        lemma_add_mod_noop((p.index + c0) % len, rest, len);
        lemma_mod_twice(p.index + c0, len);
        lemma_add_mod_noop(p.index + c0, rest, len);
    }
}

/// Full-cycle law: starting at the top of its advance timer's cycle, a
/// pattern ticked with deltas whose total makes the timer complete exactly
/// once per velocity comes back to the index it started at, however the
/// deltas are chunked.
pub proof fn lemma_full_cycle_returns(p: MovementPattern, deltas: Seq<u64>)
    requires
        p.wf(),
        p.advance_timer.elapsed == 0,
        seq_sum(deltas) == (p.velocities@.len() as int) * (p.advance_timer.period as int),
    ensures
        spec_after_steps(p, deltas).index == p.index,
{
    let len = p.velocities@.len() as int;
    lemma_steps_advance_by_completions(p, deltas);
    lemma_repeating_rechunk(p.advance_timer, deltas, len);
    // (index + len) % len == index
    lemma_mod_add_multiples_vanish(p.index as int, len);
    lemma_small_mod(p.index as nat, len as nat);
}

} // verus!
