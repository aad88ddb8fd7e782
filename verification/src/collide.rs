//! Tag-based collision and damage resolution.
//!
//! After kinematics, every active bullet is tested, in slot order, against
//! the combatants in arena order.  A bullet strikes the first live
//! opposing-tag combatant standing strictly within its hitbox radius; the
//! strike applies the bullet's damage (saturating at zero health), emits
//! the hit — and, exactly on reaching zero, the death — notification, and
//! consumes the bullet: one bullet, one hit, at most one target.  Dead
//! combatants and same-tag pairs are never touched, whatever the
//! distance.

use vstd::prelude::*;

verus! {

use crate::combatant::Combatant;
use crate::geom::within;
use crate::geom::within_radius;
use crate::health::GameEvent;
use crate::pool::BulletSlot;
use crate::pool::Pool;
use crate::pool::spec_released_slot;

/// Whether bullet `b` strikes combatant `f`: opposing tags, a live
/// target, and a position strictly within the target's hitbox radius.
/// (Whether `b` is active is the caller's concern.)
pub open spec fn spec_strikes(b: BulletSlot, f: Combatant) -> bool {
    &&& b.tag != f.health.tag
    &&& f.health.health > 0
    &&& within_radius(b.pos, f.pos, f.health.hitbox_radius)
}

/// Index of the first combatant struck by `b`, or the arena size if the
/// bullet strikes nobody.
pub open spec fn first_struck(b: BulletSlot, targets: Seq<Combatant>) -> int
    decreases targets.len(),
{
    if targets.len() == 0 {
        0
    } else if spec_strikes(b, targets[0]) {
        0
    } else {
        1 + first_struck(b, targets.drop_first())
    }
}

/// `first_struck` is in bounds or just past the end, strikes when in
/// bounds, and nothing before it is struck.
pub proof fn lemma_first_struck(b: BulletSlot, targets: Seq<Combatant>)
    ensures
        0 <= first_struck(b, targets) <= targets.len(),
        first_struck(b, targets) < targets.len() ==> spec_strikes(
            b,
            targets[first_struck(b, targets)],
        ),
        forall|k: int| 0 <= k < first_struck(b, targets) ==> !spec_strikes(b, targets[k]),
    decreases targets.len(),
{
    if targets.len() == 0 || spec_strikes(b, targets[0]) {
        // the scan stops immediately
    } else {
        let t = targets.drop_first();
        lemma_first_struck(b, t);
        let i = first_struck(b, targets);
        if i < targets.len() {
            assert(targets[i] == t[i - 1]);
        }
        assert forall|k: int| 0 <= k < i implies !spec_strikes(b, targets[k]) by {
            if k > 0 {
                assert(targets[k] == t[k - 1]);
            }
        }
    }
}

/// The converse characterisation: nobody below `j` struck and `j` struck
/// pins `first_struck` to `j`.
pub proof fn lemma_first_struck_is(b: BulletSlot, targets: Seq<Combatant>, j: int)
    requires
        0 <= j < targets.len(),
        spec_strikes(b, targets[j]),
        forall|k: int| 0 <= k < j ==> !spec_strikes(b, targets[k]),
    ensures
        first_struck(b, targets) == j,
{
    lemma_first_struck(b, targets);
    let f = first_struck(b, targets);
    if f < j {
        assert(!spec_strikes(b, targets[f]));
    }
    if f > j {
        assert(!spec_strikes(b, targets[j]));
    }
}

/// A bullet that strikes nobody leaves `first_struck` past the end.
pub proof fn lemma_first_struck_none(b: BulletSlot, targets: Seq<Combatant>)
    requires
        forall|k: int| 0 <= k < targets.len() ==> !spec_strikes(b, targets[k]),
    ensures
        first_struck(b, targets) == targets.len(),
{
    lemma_first_struck(b, targets);
    if first_struck(b, targets) < targets.len() {
        assert(!spec_strikes(b, targets[first_struck(b, targets)]));
    }
}

/// The combatant after taking `damage`: health drops saturating at zero,
/// everything else untouched.
pub open spec fn spec_struck_target(f: Combatant, damage: u32) -> Combatant {
    Combatant { health: f.health.spec_damaged(damage), ..f }
}

/// The full resolver outcome — bullets, combatants, events — after
/// processing the bullets from slot `i` on, in slot order.
///
/// Each active bullet strikes at most the first matching combatant; a
/// strike damages that combatant, appends its notifications, and releases
/// the bullet.  Inactive bullets are skipped outright.
pub open spec fn spec_resolve_from(
    bullets: Seq<BulletSlot>,
    i: int,
    targets: Seq<Combatant>,
    events: Seq<GameEvent>,
) -> (Seq<BulletSlot>, Seq<Combatant>, Seq<GameEvent>)
    decreases bullets.len() - i,
{
    if i < 0 || i >= bullets.len() {
        (bullets, targets, events)
    } else {
        let b = bullets[i];
        if b.active {
            let j = first_struck(b, targets);
            if j < targets.len() {
                spec_resolve_from(
                    bullets.update(i, spec_released_slot(b)),
                    i + 1,
                    targets.update(j, spec_struck_target(targets[j], b.damage)),
                    events + targets[j].health.spec_hit_events(b.damage),
                )
            } else {
                spec_resolve_from(bullets, i + 1, targets, events)
            }
        } else {
            spec_resolve_from(bullets, i + 1, targets, events)
        }
    }
}

/// The slot data that never changes after pool construction: side tag,
/// direction, speed and damage.
pub open spec fn slot_statics_eq(a: BulletSlot, b: BulletSlot) -> bool {
    &&& a.tag == b.tag
    &&& a.dir == b.dir
    &&& a.speed == b.speed
    &&& a.damage == b.damage
}

/// Everything of a combatant except its remaining health: position,
/// speed, gunner, side tag and hitbox radius.
pub open spec fn target_frame_eq(a: Combatant, b: Combatant) -> bool {
    &&& a.pos == b.pos
    &&& a.speed == b.speed
    &&& a.gunner == b.gunner
    &&& a.health.tag == b.health.tag
    &&& a.health.hitbox_radius == b.health.hitbox_radius
}

/// What resolution never touches: pool size and arena size, every slot's
/// static data, and every combatant's frame — only slot activity and
/// combatant health move, and an inactive slot stays exactly as it was.
pub proof fn lemma_resolve_frame(
    bullets: Seq<BulletSlot>,
    k: int,
    targets: Seq<Combatant>,
    events: Seq<GameEvent>,
)
    ensures
        ({
            let r = spec_resolve_from(bullets, k, targets, events);
            &&& r.0.len() == bullets.len()
            &&& r.1.len() == targets.len()
            &&& forall|l: int|
                0 <= l < bullets.len() ==> slot_statics_eq(#[trigger] r.0[l], bullets[l]) && (
                !bullets[l].active ==> r.0[l] == bullets[l])
            &&& forall|j: int|
                0 <= j < targets.len() ==> target_frame_eq(#[trigger] r.1[j], targets[j])
        }),
    decreases bullets.len() - k,
{
    if k < 0 || k >= bullets.len() {
        // nothing left to process
    } else {
        let b = bullets[k];
        if b.active {
            let j = first_struck(b, targets);
            lemma_first_struck(b, targets);
            if j < targets.len() {
                let bu = bullets.update(k, spec_released_slot(b));
                let tu = targets.update(j, spec_struck_target(targets[j], b.damage));
                let eu = events + targets[j].health.spec_hit_events(b.damage);
                lemma_resolve_frame(bu, k + 1, tu, eu);
                let r = spec_resolve_from(bullets, k, targets, events);
                assert(r == spec_resolve_from(bu, k + 1, tu, eu));
                assert forall|l: int|
                    0 <= l < bullets.len() implies slot_statics_eq(#[trigger] r.0[l], bullets[l])
                    && (!bullets[l].active ==> r.0[l] == bullets[l]) by {
                    assert(slot_statics_eq(spec_resolve_from(bu, k + 1, tu, eu).0[l], bu[l]) && (
                    !bu[l].active ==> spec_resolve_from(bu, k + 1, tu, eu).0[l] == bu[l]));
                }
                assert forall|jj: int|
                    0 <= jj < targets.len() implies target_frame_eq(
                    #[trigger] r.1[jj],
                    targets[jj],
                ) by {
                    assert(target_frame_eq(spec_resolve_from(bu, k + 1, tu, eu).1[jj], tu[jj]));
                    assert(target_frame_eq(tu[jj], targets[jj]));
                }
            } else {
                lemma_resolve_frame(bullets, k + 1, targets, events);
            }
        } else {
            lemma_resolve_frame(bullets, k + 1, targets, events);
        }
    }
}

/// Resolution from slot `k` treats two bullet sets alike when they differ
/// only in what some inactive slot holds: the combatants and events that
/// come out are the same.
proof fn lemma_resolve_same_but_inactive(
    s1: Seq<BulletSlot>,
    s2: Seq<BulletSlot>,
    k: int,
    i: int,
    targets: Seq<Combatant>,
    events: Seq<GameEvent>,
)
    requires
        s1.len() == s2.len(),
        0 <= i < s1.len(),
        !s1[i].active,
        !s2[i].active,
        forall|l: int| 0 <= l < s1.len() && l != i ==> s1[l] == s2[l],
    ensures
        spec_resolve_from(s1, k, targets, events).1 == spec_resolve_from(s2, k, targets, events).1,
        spec_resolve_from(s1, k, targets, events).2 == spec_resolve_from(s2, k, targets, events).2,
    decreases s1.len() - k,
{
    if k < 0 || k >= s1.len() {
        // nothing left to process on either side
    } else if k == i {
        // both sides skip the inactive slot
        lemma_resolve_same_but_inactive(s1, s2, k + 1, i, targets, events);
    } else {
        let b = s1[k];
        assert(s2[k] == b);
        if b.active {
            let j = first_struck(b, targets);
            if j < targets.len() {
                let s1u = s1.update(k, spec_released_slot(b));
                let s2u = s2.update(k, spec_released_slot(b));
                lemma_resolve_same_but_inactive(
                    s1u,
                    s2u,
                    k + 1,
                    i,
                    targets.update(j, spec_struck_target(targets[j], b.damage)),
                    events + targets[j].health.spec_hit_events(b.damage),
                );
            } else {
                lemma_resolve_same_but_inactive(s1, s2, k + 1, i, targets, events);
            }
        } else {
            lemma_resolve_same_but_inactive(s1, s2, k + 1, i, targets, events);
        }
    }
}

/// An inactive bullet slot never contributes to collision testing:
/// replacing whatever an inactive slot holds — position, tag, damage —
/// with any other inactive content changes neither the combatants nor the
/// events that resolution produces.
pub proof fn lemma_inactive_bullet_excluded(
    bullets: Seq<BulletSlot>,
    i: int,
    b2: BulletSlot,
    targets: Seq<Combatant>,
    events: Seq<GameEvent>,
)
    requires
        0 <= i < bullets.len(),
        !bullets[i].active,
        !b2.active,
    ensures
        spec_resolve_from(bullets.update(i, b2), 0, targets, events).1 == spec_resolve_from(
            bullets,
            0,
            targets,
            events,
        ).1,
        spec_resolve_from(bullets.update(i, b2), 0, targets, events).2 == spec_resolve_from(
            bullets,
            0,
            targets,
            events,
        ).2,
{
    lemma_resolve_same_but_inactive(bullets.update(i, b2), bullets, 0, i, targets, events);
}

/// Resolution from slot `k` never touches a combatant when every active
/// bullet flies its own flag.
proof fn lemma_resolve_spares_same_tag(
    bullets: Seq<BulletSlot>,
    k: int,
    targets: Seq<Combatant>,
    events: Seq<GameEvent>,
    j: int,
)
    requires
        0 <= j < targets.len(),
        forall|l: int|
            0 <= l < bullets.len() ==> (bullets[l].active ==> bullets[l].tag
                == targets[j].health.tag),
    ensures
        spec_resolve_from(bullets, k, targets, events).1.len() == targets.len(),
        spec_resolve_from(bullets, k, targets, events).1[j] == targets[j],
    decreases bullets.len() - k,
{
    if k < 0 || k >= bullets.len() {
        // nothing left to process
    } else {
        let b = bullets[k];
        if b.active {
            let jj = first_struck(b, targets);
            lemma_first_struck(b, targets);
            if jj < targets.len() {
                // the struck combatant flies the other flag, so it is not `j`
                assert(jj != j);
                lemma_resolve_spares_same_tag(
                    bullets.update(k, spec_released_slot(b)),
                    k + 1,
                    targets.update(jj, spec_struck_target(targets[jj], b.damage)),
                    events + targets[jj].health.spec_hit_events(b.damage),
                    j,
                );
            } else {
                lemma_resolve_spares_same_tag(bullets, k + 1, targets, events, j);
            }
        } else {
            lemma_resolve_spares_same_tag(bullets, k + 1, targets, events, j);
        }
    }
}

/// No friendly fire: when every active bullet carries the same tag as
/// combatant `j`'s record, resolution leaves combatant `j` exactly as it
/// was — for any relative positions, including distance zero.
pub proof fn lemma_no_friendly_fire(
    bullets: Seq<BulletSlot>,
    targets: Seq<Combatant>,
    events: Seq<GameEvent>,
    j: int,
)
    requires
        0 <= j < targets.len(),
        forall|l: int|
            0 <= l < bullets.len() ==> (bullets[l].active ==> bullets[l].tag
                == targets[j].health.tag),
    ensures
        spec_resolve_from(bullets, 0, targets, events).1[j] == targets[j],
{
    lemma_resolve_spares_same_tag(bullets, 0, targets, events, j);
}

/// Collision test for one bullet and one combatant.
pub fn strikes(b: BulletSlot, f: Combatant) -> (r: bool)
    ensures
        r == spec_strikes(b, f),
{
    b.tag != f.health.tag && f.health.health > 0 && within(b.pos, f.pos, f.health.hitbox_radius)
}

/// Resolve every active bullet of `pool` against the combatants of
/// `targets`, in slot order, exactly as [`spec_resolve_from`] describes
/// from slot zero.
pub fn resolve_hits(pool: &mut Pool, targets: &mut Vec<Combatant>, events: &mut Vec<GameEvent>)
    ensures
        final(pool)@ == spec_resolve_from(old(pool)@, 0, old(targets)@, old(events)@).0,
        final(targets)@ == spec_resolve_from(old(pool)@, 0, old(targets)@, old(events)@).1,
        final(events)@ == spec_resolve_from(old(pool)@, 0, old(targets)@, old(events)@).2,
{
    let n: usize = pool.slots.len();
    let mut i: usize = 0;
    while i < n
        invariant
            i <= n,
            n == pool@.len(),
            spec_resolve_from(pool@, i as int, targets@, events@) == spec_resolve_from(
                old(pool)@,
                0,
                old(targets)@,
                old(events)@,
            ),
        decreases n - i,
    {
        let ghost pool0 = pool@;
        let ghost targets0 = targets@;
        let ghost events0 = events@;
        let b = pool.slots[i];
        if b.active {
            let m: usize = targets.len();
            let mut j: usize = 0;
            while j < m && !strikes(b, targets[j])
                invariant
                    j <= m,
                    m == targets@.len(),
                    pool@ == pool0,
                    targets@ == targets0,
                    events@ == events0,
                    b == pool0[i as int],
                    forall|k: int| 0 <= k < j ==> !spec_strikes(b, targets0[k]),
                decreases m - j,
            {
                j = j + 1;
            }
            if j < m {
                proof {
                    lemma_first_struck_is(b, targets0, j as int);
                }
                let mut f = targets[j];
                f.health.take_damage(b.damage, events);
                targets.set(j, f);
                pool.release(i);
                proof {
                    assert(targets@ =~= targets0.update(
                        j as int,
                        spec_struck_target(targets0[j as int], b.damage),
                    ));
                    assert(pool@ =~= pool0.update(i as int, spec_released_slot(b)));
                }
            } else {
                proof {
                    lemma_first_struck_none(b, targets0);
                }
            }
        }
        i = i + 1;
    }
}

} // verus!
