//! Combatants: the per-entity record a shooter carries.
//!
//! A [`Gunner`] couples a side tag to a cooldown timer; a [`Combatant`]
//! is one full participant — position, movement speed, gunner, and health
//! record.  The stock game has exactly one player and one enemy combatant,
//! created once at startup.

use vstd::prelude::*;

verus! {

use crate::geom::Vec2;
use crate::health::HealthRecord;
use crate::health::Tag;
use crate::timer::Timer;
use crate::timer::TimerMode;

/// A shooter's firing side and cooldown.
#[derive(Clone, Copy, PartialEq, Eq, Structural, Debug)]
pub struct Gunner {
    /// Side this shooter fires for; its bullets carry the same tag.
    pub tag: Tag,
    /// Repeating cooldown between shots.
    pub shot_timer: Timer,
}

impl Gunner {
    /// Well-formedness of the cooldown timer.
    pub open spec fn wf(self) -> bool {
        self.shot_timer.wf()
    }

    /// Whether a tick of `delta` completes the cooldown at least once.
    pub open spec fn spec_can_shoot(self, delta: u64) -> bool {
        self.shot_timer.spec_completions(delta) >= 1
    }

    /// A gunner for side `tag` with a repeating cooldown of `delay` time
    /// units.
    pub fn new(tag: Tag, delay: u64) -> (g: Gunner)
        requires
            delay >= 1,
        ensures
            g.wf(),
            g.tag == tag,
            g.shot_timer.period == delay,
            g.shot_timer.elapsed == 0,
            g.shot_timer.mode is Repeating,
    {
        Gunner { tag, shot_timer: Timer::new(delay, TimerMode::Repeating) }
    }

    /// Tick the cooldown by `delta` and report whether it completed, which
    /// is exactly when this shooter may fire this tick.
    ///
    /// The cooldown is consumed by the tick whether or not a bullet is
    /// actually available, so a dropped shot is not retried early.
    pub fn can_shoot(&mut self, delta: u64) -> (r: bool)
        requires
            old(self).wf(),
        ensures
            final(self).wf(),
            final(self).tag == old(self).tag,
            final(self).shot_timer == old(self).shot_timer.spec_ticked(delta),
            r == old(self).spec_can_shoot(delta),
    {
        self.shot_timer.tick(delta) >= 1
    }
}

/// One full participant of the simulation: where it stands, how fast it
/// moves, how it fires, and how it takes damage.
#[derive(Clone, Copy, PartialEq, Eq, Structural, Debug)]
pub struct Combatant {
    /// Current position on the grid.
    pub pos: Vec2,
    /// Distance moved per tick along a unit direction.
    pub speed: i32,
    /// Firing side and cooldown.
    pub gunner: Gunner,
    /// Health, side tag and hitbox.
    pub health: HealthRecord,
}

impl Combatant {
    /// Well-formedness: the cooldown timer is sound and the gunner fires
    /// for the side whose health record this is.
    pub open spec fn wf(self) -> bool {
        &&& self.gunner.wf()
        &&& self.gunner.tag == self.health.tag
    }
}

} // verus!
