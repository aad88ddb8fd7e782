//! Health records, side tags, and the damage state machine.
//!
//! A [`HealthRecord`] tracks one combatant's remaining health.  Damage
//! saturates at zero: health never wraps below it.  Reaching zero is
//! terminal for the record, and the tick that reaches it emits a death
//! event exactly once.  Hit and death notifications are delivered as
//! [`GameEvent`] values appended to a list the host drains after each tick.

use vstd::prelude::*;

verus! {

/// Side identifier.  A bullet carries the tag of the side that fired it and
/// can only damage records of the opposing tag.
#[derive(Clone, Copy, PartialEq, Eq, Structural, Debug)]
pub enum Tag {
    Player,
    Enemy,
}

/// A notification produced by the damage resolver, drained by the host
/// after each tick (in place of direct hit/death callbacks).
#[derive(Clone, Copy, PartialEq, Eq, Structural, Debug)]
pub enum GameEvent {
    /// A record was hit; `health` is its remaining health after the hit.
    Hit { tag: Tag, health: u32 },
    /// A record's health reached zero on this hit.
    Death { tag: Tag },
}

/// Per-combatant mutable state: side tag, remaining health, and the radius
/// below which an opposing bullet counts as a strike.
#[derive(Clone, Copy, PartialEq, Eq, Structural, Debug)]
pub struct HealthRecord {
    pub tag: Tag,
    pub health: u32,
    pub hitbox_radius: u32,
}

impl HealthRecord {
    /// The record after one hit of `damage`: health drops, saturating at
    /// zero.
    pub open spec fn spec_damaged(self, damage: u32) -> HealthRecord {
        HealthRecord {
            health: if damage >= self.health {
                0
            } else {
                (self.health - damage) as u32
            },
            ..self
        }
    }

    /// The events one hit of `damage` emits: a hit notification with the
    /// new health, then a death notification exactly when the hit is the
    /// one that reaches zero.
    pub open spec fn spec_hit_events(self, damage: u32) -> Seq<GameEvent> {
        let after = self.spec_damaged(damage);
        if after.health == 0 {
            seq![
                GameEvent::Hit { tag: self.tag, health: after.health },
                GameEvent::Death { tag: self.tag },
            ]
        } else {
            seq![GameEvent::Hit { tag: self.tag, health: after.health }]
        }
    }

    /// Apply one hit of `damage` to a live record, appending the hit
    /// notification and, exactly when health reaches zero, the death
    /// notification.
    ///
    /// Dead records take no further hits: the resolver guards on
    /// `health > 0` before calling, so a death fires at most once.
    pub fn take_damage(&mut self, damage: u32, events: &mut Vec<GameEvent>)
        requires
            old(self).health > 0,
        ensures
            *final(self) == old(self).spec_damaged(damage),
            final(events)@ == old(events)@ + old(self).spec_hit_events(damage),
    {
        if damage >= self.health {
            self.health = 0;
        } else {
            self.health = self.health - damage;
        }
        events.push(GameEvent::Hit { tag: self.tag, health: self.health });
        if self.health == 0 {
            events.push(GameEvent::Death { tag: self.tag });
        }
    }
}

/// Total damage of a sequence of hits, as a mathematical integer.
pub open spec fn damage_sum(damages: Seq<u32>) -> int
    decreases damages.len(),
{
    if damages.len() == 0 {
        0
    } else {
        damages[0] + damage_sum(damages.drop_first())
    }
}

/// The record after a whole sequence of hits, each processed only while
/// the record is still alive (a dead record is terminal).
pub open spec fn spec_after_hits(r: HealthRecord, damages: Seq<u32>) -> HealthRecord
    decreases damages.len(),
{
    if damages.len() == 0 {
        r
    } else if r.health == 0 {
        r
    } else {
        spec_after_hits(r.spec_damaged(damages[0]), damages.drop_first())
    }
}

/// How many death notifications a sequence of hits emits: one for each hit
/// that takes a live record to zero health.
pub open spec fn spec_death_count(r: HealthRecord, damages: Seq<u32>) -> int
    decreases damages.len(),
{
    if damages.len() == 0 {
        0
    } else if r.health == 0 {
        0
    } else {
        (if r.spec_damaged(damages[0]).health == 0 {
            1int
        } else {
            0int
        }) + spec_death_count(r.spec_damaged(damages[0]), damages.drop_first())
    }
}

/// Health floors at zero and death is announced exactly once: for any
/// sequence of hits whose total damage reaches a live record's health, the
/// final health is exactly zero and exactly one death notification is
/// emitted, however the damage is spread over the hits.
pub proof fn lemma_lethal_hits_floor_at_zero(r: HealthRecord, damages: Seq<u32>)
    requires
        r.health > 0,
        damage_sum(damages) >= r.health,
    ensures
        spec_after_hits(r, damages).health == 0,
        spec_death_count(r, damages) == 1,
    decreases damages.len(),
{
    if damages.len() == 0 {
        // total damage zero cannot reach positive health
    } else {
        let r1 = r.spec_damaged(damages[0]);
        if r1.health == 0 {
            // the first hit is lethal; a dead record absorbs the rest
            assert(spec_after_hits(r1, damages.drop_first()) == r1);
            assert(spec_death_count(r1, damages.drop_first()) == 0);
        } else {
            lemma_lethal_hits_floor_at_zero(r1, damages.drop_first());
        }
    }
}

} // verus!
