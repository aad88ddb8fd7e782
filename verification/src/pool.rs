//! The bullet object pool.
//!
//! A [`Pool`] owns a fixed set of bullet slots created once at startup and
//! recycled forever after: firing activates the lowest-indexed inactive
//! slot, and a hit releases the slot back.  Exhaustion is not an error —
//! an acquire on a fully active pool simply returns nothing and the shot
//! is dropped.

use vstd::prelude::*;

verus! {

use crate::geom::Vec2;
use crate::health::Tag;

/// One reusable bullet slot.
///
/// An inactive slot is invisible to the renderer and to collision testing;
/// its position is meaningless until the next acquire.  Direction, speed,
/// side tag and damage are fixed when the pool is built.
#[derive(Clone, Copy, PartialEq, Eq, Structural, Debug)]
pub struct BulletSlot {
    /// Whether the slot currently holds a live bullet.
    pub active: bool,
    /// Position on the grid; meaningful only while active.
    pub pos: Vec2,
    /// Travel direction, scaled by `speed` each tick.
    pub dir: Vec2,
    /// Distance travelled per tick along `dir`.
    pub speed: i32,
    /// Side that fired from this pool; bullets only damage the other side.
    pub tag: Tag,
    /// Damage dealt on a hit.
    pub damage: u32,
}

/// The slot as it looks right after an acquire at `pos`.
pub open spec fn spec_acquired_slot(slot: BulletSlot, pos: Vec2) -> BulletSlot {
    BulletSlot { active: true, pos, ..slot }
}

/// The slot as it looks right after a release.
pub open spec fn spec_released_slot(slot: BulletSlot) -> BulletSlot {
    BulletSlot { active: false, ..slot }
}

/// Index of the lowest inactive slot, or the pool size if every slot is
/// active.
pub open spec fn first_free(s: Seq<BulletSlot>) -> int
    decreases s.len(),
{
    if s.len() == 0 {
        0
    } else if !s[0].active {
        0
    } else {
        1 + first_free(s.drop_first())
    }
}

/// The pool contents after an acquire at `pos`: the lowest inactive slot
/// becomes active there, or nothing changes if the pool is exhausted.
pub open spec fn spec_acquire(s: Seq<BulletSlot>, pos: Vec2) -> Seq<BulletSlot> {
    let i = first_free(s);
    if i < s.len() {
        s.update(i, spec_acquired_slot(s[i], pos))
    } else {
        s
    }
}

/// `first_free` is what its name says: it is in bounds or just past the
/// end, it points at an inactive slot when in bounds, and every slot
/// before it is active.
pub proof fn lemma_first_free(s: Seq<BulletSlot>)
    ensures
        0 <= first_free(s) <= s.len(),
        first_free(s) < s.len() ==> !s[first_free(s)].active,
        forall|j: int| 0 <= j < first_free(s) ==> s[j].active,
    decreases s.len(),
{
    if s.len() == 0 || !s[0].active {
        // the scan stops immediately
    } else {
        let t = s.drop_first();
        lemma_first_free(t);
        let i = first_free(s);
        if i < s.len() {
            assert(!t[i - 1].active);
            assert(s[i] == t[i - 1]);
        }
        assert forall|j: int| 0 <= j < i implies s[j].active by {
            if j > 0 {
                assert(t[j - 1].active);
                assert(s[j] == t[j - 1]);
            }
        }
    }
}

/// The converse characterisation: a slot pattern with every slot below `i`
/// active and slot `i` inactive pins `first_free` to `i`.
pub proof fn lemma_first_free_is(s: Seq<BulletSlot>, i: int)
    requires
        0 <= i < s.len(),
        !s[i].active,
        forall|j: int| 0 <= j < i ==> s[j].active,
    ensures
        first_free(s) == i,
{
    lemma_first_free(s);
    let f = first_free(s);
    if f < i {
        assert(s[f].active);
    }
    if f > i {
        assert(s[i].active);
    }
}

/// A fully active pool has no free slot.
pub proof fn lemma_first_free_full(s: Seq<BulletSlot>)
    requires
        forall|j: int| 0 <= j < s.len() ==> s[j].active,
    ensures
        first_free(s) == s.len(),
    decreases s.len(),
{
    lemma_first_free(s);
    if first_free(s) < s.len() {
        assert(s[first_free(s)].active);
    }
}

/// The bullet pool of one side: a fixed-capacity vector of reusable slots.
pub struct Pool {
    /// The slots, in creation order; acquire scans them from index zero.
    pub slots: Vec<BulletSlot>,
}

impl View for Pool {
    type V = Seq<BulletSlot>;

    open spec fn view(&self) -> Seq<BulletSlot> {
        self.slots@
    }
}

impl Pool {
    /// Build a pool of `capacity` identical inactive slots for side `tag`,
    /// parked at the origin, each firing along `dir` at `speed` and
    /// dealing `damage` per hit.
    pub fn new(capacity: usize, tag: Tag, dir: Vec2, speed: i32, damage: u32) -> (pool: Pool)
        ensures
            pool@.len() == capacity,
            forall|i: int|
                0 <= i < capacity ==> pool@[i] == (BulletSlot {
                    active: false,
                    pos: (Vec2 { x: 0, y: 0 }),
                    dir,
                    speed,
                    tag,
                    damage,
                }),
    {
        let mut slots: Vec<BulletSlot> = Vec::new();
        let mut i: usize = 0;
        while i < capacity
            invariant
                i <= capacity,
                slots@.len() == i,
                forall|j: int|
                    0 <= j < i ==> slots@[j] == (BulletSlot {
                        active: false,
                        pos: (Vec2 { x: 0, y: 0 }),
                        dir,
                        speed,
                        tag,
                        damage,
                    }),
            decreases capacity - i,
        {
            slots.push(BulletSlot {
                active: false,
                pos: Vec2 { x: 0, y: 0 },
                dir,
                speed,
                tag,
                damage,
            });
            i = i + 1;
        }
        Pool { slots }
    }

    /// Number of slots, active or not: the pool's fixed capacity.
    pub fn capacity(&self) -> (n: usize)
        ensures
            n == self@.len(),
    {
        self.slots.len()
    }

    /// Activate the lowest-indexed inactive slot at `pos` and return its
    /// index, or return nothing when every slot is active (the shot is
    /// dropped; exhaustion is a rate limit, not an error).
    pub fn acquire(&mut self, pos: Vec2) -> (r: Option<usize>)
        ensures
            final(self)@ == spec_acquire(old(self)@, pos),
            r matches Some(i) ==> first_free(old(self)@) == i && i < old(self)@.len(),
            r is None ==> first_free(old(self)@) == old(self)@.len(),
            r is Some <==> exists|j: int| 0 <= j < old(self)@.len() && !old(self)@[j].active,
    {
        let n: usize = self.slots.len();
        let mut i: usize = 0;
        while i < n
            invariant
                i <= n,
                n == self@.len(),
                *self == *old(self),
                forall|j: int| 0 <= j < i ==> self@[j].active,
            decreases n - i,
        {
            if !self.slots[i].active {
                let slot = self.slots[i];
                self.slots.set(i, BulletSlot { active: true, pos, ..slot });
                proof {
                    lemma_first_free_is(old(self)@, i as int);
                }
                return Some(i);
            }
            i = i + 1;
        }
        proof {
            lemma_first_free_full(self@);
        }
        None
    }

    /// Deactivate slot `i`, making it available to the next acquire.  Its
    /// position keeps whatever value it had, which is meaningless until
    /// then.
    pub fn release(&mut self, i: usize)
        requires
            i < old(self)@.len(),
        ensures
            final(self)@ == old(self)@.update(i as int, spec_released_slot(old(self)@[i as int])),
    {
        let slot = self.slots[i];
        self.slots.set(i, BulletSlot { active: false, ..slot });
    }

    /// How many slots are currently active.
    pub fn active_count(&self) -> (n: usize)
        ensures
            n == count_active(self@),
    {
        let len: usize = self.slots.len();
        let mut n: usize = 0;
        let mut i: usize = 0;
        while i < len
            invariant
                i <= len,
                len == self@.len(),
                n == count_active(self@.take(i as int)),
                n <= i,
            decreases len - i,
        {
            proof {
                assert(self@.take(i + 1).drop_last() =~= self@.take(i as int));
                assert(self@.take(i + 1).last() == self@[i as int]);
            }
            if self.slots[i].active {
                n = n + 1;
            }
            i = i + 1;
        }
        proof {
            assert(self@.take(len as int) =~= self@);
        }
        n
    }
}

/// An acquire changes at most one slot's activity and position: size,
/// tags, directions, speeds and damages all stay put.
pub proof fn lemma_acquire_preserves_static(s: Seq<BulletSlot>, pos: Vec2)
    ensures
        spec_acquire(s, pos).len() == s.len(),
        forall|l: int|
            0 <= l < s.len() ==> #[trigger] spec_acquire(s, pos)[l].tag == s[l].tag
                && spec_acquire(s, pos)[l].dir == s[l].dir && spec_acquire(s, pos)[l].speed
                == s[l].speed && spec_acquire(s, pos)[l].damage == s[l].damage,
{
    lemma_first_free(s);
}

/// The pool contents after a whole sequence of acquires, one per position.
pub open spec fn spec_acquire_seq(s: Seq<BulletSlot>, positions: Seq<Vec2>) -> Seq<BulletSlot>
    decreases positions.len(),
{
    if positions.len() == 0 {
        s
    } else {
        spec_acquire_seq(spec_acquire(s, positions[0]), positions.drop_first())
    }
}

/// The slot pattern after `k` acquires on a fresh pool: slots below `k`
/// are active, the rest are not.
pub open spec fn prefix_active(s: Seq<BulletSlot>, k: int) -> bool {
    forall|j: int| 0 <= j < s.len() ==> (s[j].active <==> j < k)
}

/// One acquire on a pool whose first `k` slots are active lands on slot
/// `k` and extends the active prefix by one.
pub proof fn lemma_acquire_extends_prefix(s: Seq<BulletSlot>, k: int, pos: Vec2)
    requires
        prefix_active(s, k),
        0 <= k < s.len(),
    ensures
        first_free(s) == k,
        spec_acquire(s, pos).len() == s.len(),
        prefix_active(spec_acquire(s, pos), k + 1),
{
    lemma_first_free_is(s, k);
}

/// Acquiring once per remaining slot on a pool with an active prefix of
/// `k` leaves every slot active.
pub proof fn lemma_acquire_seq_fills(s: Seq<BulletSlot>, positions: Seq<Vec2>, k: int)
    requires
        prefix_active(s, k),
        0 <= k <= s.len(),
        positions.len() == s.len() - k,
    ensures
        spec_acquire_seq(s, positions).len() == s.len(),
        forall|j: int| 0 <= j < s.len() ==> spec_acquire_seq(s, positions)[j].active,
    decreases positions.len(),
{
    if positions.len() == 0 {
        // the prefix is the whole pool
    } else {
        lemma_acquire_extends_prefix(s, k, positions[0]);
        lemma_acquire_seq_fills(spec_acquire(s, positions[0]), positions.drop_first(), k + 1);
    }
}

/// The acquire/release round trip: acquiring every slot of a fresh pool
/// leaves it exhausted, so a further acquire finds nothing; releasing any
/// one slot makes exactly that slot available again, and the next acquire
/// takes exactly it.
pub proof fn lemma_pool_round_trip(
    s: Seq<BulletSlot>,
    positions: Seq<Vec2>,
    i: int,
    pos: Vec2,
    pos2: Vec2,
)
    requires
        forall|j: int| 0 <= j < s.len() ==> !s[j].active,
        positions.len() == s.len(),
        0 <= i < s.len(),
    ensures
        ({
            let full = spec_acquire_seq(s, positions);
            let rel = full.update(i, spec_released_slot(full[i]));
            &&& forall|j: int| 0 <= j < full.len() ==> full[j].active
            &&& first_free(full) == full.len()
            &&& spec_acquire(full, pos) == full
            &&& first_free(rel) == i
            &&& forall|j: int| 0 <= j < rel.len() && j != i ==> rel[j].active
            &&& spec_acquire(rel, pos2) == rel.update(i, spec_acquired_slot(rel[i], pos2))
        }),
{
    lemma_acquire_seq_fills(s, positions, 0);
    let full = spec_acquire_seq(s, positions);
    lemma_first_free_full(full);
    let rel = full.update(i, spec_released_slot(full[i]));
    lemma_first_free_is(rel, i);
}

/// Number of active slots in a pool, counted from the back.
pub open spec fn count_active(s: Seq<BulletSlot>) -> int
    decreases s.len(),
{
    if s.len() == 0 {
        0
    } else {
        count_active(s.drop_last()) + (if s.last().active {
            1int
        } else {
            0int
        })
    }
}

} // verus!
