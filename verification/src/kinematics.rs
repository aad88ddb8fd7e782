//! Per-tick motion: bullets fly along their fixed directions, the enemy
//! follows its scripted pattern, and the player follows the pressed keys.
//!
//! Directions are fixed at spawn time; all scaling is by the per-entity
//! speed.  Player input is additive per axis and deliberately not
//! normalised: holding two perpendicular keys moves the full speed on
//! both axes, as the stock game does.

use vstd::prelude::*;

verus! {

use crate::combatant::Combatant;
use crate::geom::Vec2;
use crate::geom::add_scaled;
use crate::geom::spec_add_scaled;
use crate::geom::spec_translated;
use crate::geom::translated;
use crate::pattern::MovementPattern;
use crate::pool::BulletSlot;
use crate::pool::Pool;

/// The set of movement keys pressed during one tick, as the host reports
/// it (abstract identifiers, not literal key codes).
#[derive(Clone, Copy, PartialEq, Eq, Structural, Debug)]
pub struct KeyState {
    pub up: bool,
    pub down: bool,
    pub left: bool,
    pub right: bool,
}

/// The direction the pressed keys add up to, one axis at a time; opposite
/// keys cancel.
pub open spec fn spec_key_dir(keys: KeyState) -> Vec2 {
    Vec2 {
        x: ((if keys.right {
            1int
        } else {
            0int
        }) - (if keys.left {
            1int
        } else {
            0int
        })) as i32,
        y: ((if keys.up {
            1int
        } else {
            0int
        }) - (if keys.down {
            1int
        } else {
            0int
        })) as i32,
    }
}

/// A bullet slot one tick later: an active bullet advances by its
/// direction times its speed; an inactive slot stays put.
pub open spec fn spec_moved_slot(b: BulletSlot) -> BulletSlot {
    if b.active {
        BulletSlot { pos: spec_translated(b.pos, b.dir, b.speed), ..b }
    } else {
        b
    }
}

/// A whole pool one tick later.
pub open spec fn spec_advanced(s: Seq<BulletSlot>) -> Seq<BulletSlot> {
    s.map_values(|b: BulletSlot| spec_moved_slot(b))
}

/// Advance every active bullet of the pool by its direction times its
/// speed; inactive slots stay put.
pub fn advance_bullets(pool: &mut Pool)
    ensures
        final(pool)@ == spec_advanced(old(pool)@),
{
    let n: usize = pool.slots.len();
    let mut i: usize = 0;
    while i < n
        invariant
            i <= n,
            n == pool@.len(),
            pool@.len() == old(pool)@.len(),
            forall|k: int| 0 <= k < i ==> pool@[k] == spec_moved_slot(old(pool)@[k]),
            forall|k: int| i <= k < n ==> pool@[k] == old(pool)@[k],
        decreases n - i,
    {
        let b = pool.slots[i];
        if b.active {
            let moved = translated(b.pos, b.dir, b.speed);
            pool.slots.set(i, BulletSlot { pos: moved, ..b });
        }
        i = i + 1;
    }
    proof {
        assert(pool@ =~= spec_advanced(old(pool)@));
    }
}

/// Move the player by the pressed keys: each axis gains the player's full
/// speed, opposite keys cancel, and diagonals are not normalised.
pub fn move_player(player: &mut Combatant, keys: KeyState)
    ensures
        *final(player) == (Combatant {
            pos: spec_translated(old(player).pos, spec_key_dir(keys), old(player).speed),
            ..*old(player)
        }),
{
    let dx: i32 = (if keys.right {
        1
    } else {
        0
    }) - (if keys.left {
        1
    } else {
        0
    });
    let dy: i32 = (if keys.up {
        1
    } else {
        0
    }) - (if keys.down {
        1
    } else {
        0
    });
    player.pos = translated(player.pos, Vec2 { x: dx, y: dy }, player.speed);
}

/// Advance the enemy: its pattern steps first (the advance timer may move
/// the index), then the enemy slides horizontally by the velocity now in
/// force times its speed.  Position updates every tick; the direction
/// only changes when the advance timer completes.
pub fn advance_enemy(enemy: &mut Combatant, pattern: &mut MovementPattern, delta: u64)
    requires
        old(pattern).wf(),
    ensures
        final(pattern).wf(),
        *final(pattern) == old(pattern).spec_stepped(delta),
        *final(enemy) == (Combatant {
            pos: (Vec2 {
                x: spec_add_scaled(
                    old(enemy).pos.x,
                    old(pattern).spec_stepped(delta).velocities@[old(pattern).spec_stepped(
                        delta,
                    ).index as int],
                    old(enemy).speed,
                ) as i32,
                y: old(enemy).pos.y,
            }),
            ..*old(enemy)
        }),
{
    pattern.step(delta);
    let v = pattern.current_velocity();
    let x = add_scaled(enemy.pos.x, v, enemy.speed);
    enemy.pos = Vec2 { x, y: enemy.pos.y };
}

} // verus!
