//! Cooldown-gated spawning: the coupling of a shooter's cooldown timer to
//! its side's bullet pool.
//!
//! Each tick, every shooter's cooldown is advanced; on completion the
//! spawner activates the lowest-indexed inactive slot of that side's pool
//! at the shooter's current position.  If the pool is exhausted the shot
//! is silently dropped — the cooldown is still consumed, so the next
//! chance comes a full cooldown later.

use vstd::prelude::*;

verus! {

use crate::combatant::Gunner;
use crate::geom::Vec2;
use crate::pool::BulletSlot;
use crate::pool::Pool;
use crate::pool::spec_acquire;

/// Pool contents after one spawner step for a shooter at `pos`: on
/// cooldown completion the first free slot is activated there, otherwise
/// nothing changes.
pub open spec fn spec_spawn(g: Gunner, pos: Vec2, s: Seq<BulletSlot>, delta: u64) -> Seq<
    BulletSlot,
> {
    if g.spec_can_shoot(delta) {
        spec_acquire(s, pos)
    } else {
        s
    }
}

/// One spawner step for one shooter: tick its cooldown, and on completion
/// fire one bullet from `pool` at the shooter's position `pos`.
///
/// At most one bullet is activated per shooter per tick, even if a large
/// `delta` completes the cooldown several times.
pub fn spawn_step(gunner: &mut Gunner, pos: Vec2, pool: &mut Pool, delta: u64)
    requires
        old(gunner).wf(),
    ensures
        final(gunner).wf(),
        final(gunner).tag == old(gunner).tag,
        final(gunner).shot_timer == old(gunner).shot_timer.spec_ticked(delta),
        final(pool)@ == spec_spawn(*old(gunner), pos, old(pool)@, delta),
{
    if gunner.can_shoot(delta) {
        let _ = pool.acquire(pos);
    }
}

} // verus!
