//! The simulation world: one player, one enemy, a bullet pool per side,
//! and the per-tick entry point the host calls with the elapsed time and
//! the pressed keys.
//!
//! Within a tick the phases run in a fixed order — input moves the
//! player, cooldowns spawn bullets, kinematics advances bullets and the
//! enemy, and collision resolves hits last — so a bullet spawned this
//! tick has already moved once before it is ever tested for collision.
//!
//! The world itself never ends the game: a death leaves its record dead
//! (terminal, never hit again) and the simulation keeps ticking.  The
//! host reads the drained [`GameEvent`] list and decides when to stop.

use vstd::prelude::*;

verus! {

use crate::collide::lemma_resolve_frame;
use crate::collide::resolve_hits;
use crate::collide::spec_resolve_from;
use crate::collide::target_frame_eq;
use crate::combatant::Combatant;
use crate::combatant::Gunner;
use crate::geom::Vec2;
use crate::geom::spec_add_scaled;
use crate::geom::spec_translated;
use crate::health::GameEvent;
use crate::health::HealthRecord;
use crate::health::Tag;
use crate::kinematics::KeyState;
use crate::kinematics::advance_bullets;
use crate::kinematics::advance_enemy;
use crate::kinematics::move_player;
use crate::kinematics::spec_advanced;
use crate::kinematics::spec_key_dir;
use crate::kinematics::spec_moved_slot;
use crate::pattern::MovementPattern;
use crate::pool::BulletSlot;
use crate::pool::Pool;
use crate::pool::lemma_acquire_preserves_static;
use crate::spawn::spawn_step;
use crate::spawn::spec_spawn;
use crate::timer::Timer;
use crate::timer::TimerMode;

/// The whole simulation state.  The arena holds exactly two combatants:
/// the player at index zero and the enemy at index one — the
/// exactly-one-of-each invariant of the game model is enforced by
/// construction rather than queried at runtime.
pub struct World {
    /// The arena: player first, enemy second.
    pub combatants: Vec<Combatant>,
    /// The enemy's scripted movement.
    pub enemy_pattern: MovementPattern,
    /// Bullets fired by the player.
    pub player_pool: Pool,
    /// Bullets fired by the enemy.
    pub enemy_pool: Pool,
    /// Notifications not yet drained by the host.
    pub events: Vec<GameEvent>,
}

impl World {
    /// Well-formedness: a two-combatant arena with the right tags, sound
    /// timers, and pools whose slots fly their own side's flag.
    pub open spec fn wf(self) -> bool {
        &&& self.combatants@.len() == 2
        &&& self.combatants@[0].wf()
        &&& self.combatants@[1].wf()
        &&& self.combatants@[0].health.tag is Player
        &&& self.combatants@[1].health.tag is Enemy
        &&& self.enemy_pattern.wf()
        &&& forall|i: int|
            0 <= i < self.player_pool@.len() ==> (#[trigger] self.player_pool@[i].tag) is Player
        &&& forall|i: int|
            0 <= i < self.enemy_pool@.len() ==> (#[trigger] self.enemy_pool@[i].tag) is Enemy
    }

    /// Assemble a world from its parts.
    pub fn new(
        player: Combatant,
        enemy: Combatant,
        enemy_pattern: MovementPattern,
        player_pool: Pool,
        enemy_pool: Pool,
    ) -> (w: World)
        requires
            player.wf(),
            enemy.wf(),
            player.health.tag is Player,
            enemy.health.tag is Enemy,
            enemy_pattern.wf(),
            forall|i: int| 0 <= i < player_pool@.len() ==> (#[trigger] player_pool@[i].tag) is Player,
            forall|i: int| 0 <= i < enemy_pool@.len() ==> (#[trigger] enemy_pool@[i].tag) is Enemy,
        ensures
            w.wf(),
            w.combatants@ == seq![player, enemy],
            w.enemy_pattern == enemy_pattern,
            w.player_pool == player_pool,
            w.enemy_pool == enemy_pool,
            w.events@ == Seq::<GameEvent>::empty(),
    {
        let mut combatants: Vec<Combatant> = Vec::new();
        combatants.push(player);
        combatants.push(enemy);
        proof {
            assert(combatants@ =~= seq![player, enemy]);
        }
        World { combatants, enemy_pattern, player_pool, enemy_pool, events: Vec::new() }
    }

    /// Everything one tick changes, computed over views: the player pool,
    /// the enemy pool, the arena and the event list, in that order.
    ///
    /// The phases mirror [`World::tick`]: the player moves by the keys;
    /// both cooldowns tick and fire from their pools (the player from its
    /// moved position, the enemy from where it still stands); bullets fly
    /// and the enemy follows its pattern; finally the player's bullets
    /// and then the enemy's resolve against the arena.
    pub open spec fn spec_tick_outcome(
        combatants: Seq<Combatant>,
        pattern: MovementPattern,
        ppool: Seq<BulletSlot>,
        epool: Seq<BulletSlot>,
        events: Seq<GameEvent>,
        delta: u64,
        keys: KeyState,
    ) -> (Seq<BulletSlot>, Seq<BulletSlot>, Seq<Combatant>, Seq<GameEvent>) {
        let player0 = combatants[0];
        let enemy0 = combatants[1];
        // input phase
        let player1 = Combatant {
            pos: spec_translated(player0.pos, spec_key_dir(keys), player0.speed),
            ..player0
        };
        // spawn phase
        let ppool1 = spec_spawn(player1.gunner, player1.pos, ppool, delta);
        let player2 = Combatant {
            gunner: Gunner {
                shot_timer: player1.gunner.shot_timer.spec_ticked(delta),
                ..player1.gunner
            },
            ..player1
        };
        let epool1 = spec_spawn(enemy0.gunner, enemy0.pos, epool, delta);
        let enemy1 = Combatant {
            gunner: Gunner {
                shot_timer: enemy0.gunner.shot_timer.spec_ticked(delta),
                ..enemy0.gunner
            },
            ..enemy0
        };
        // kinematics phase
        let ppool2 = spec_advanced(ppool1);
        let epool2 = spec_advanced(epool1);
        let pattern1 = pattern.spec_stepped(delta);
        let enemy2 = Combatant {
            pos: Vec2 {
                x: spec_add_scaled(
                    enemy1.pos.x,
                    pattern1.velocities@[pattern1.index as int],
                    enemy1.speed,
                ) as i32,
                y: enemy1.pos.y,
            },
            ..enemy1
        };
        // collision phase
        let targets = seq![player2, enemy2];
        let r1 = spec_resolve_from(ppool2, 0, targets, events);
        let r2 = spec_resolve_from(epool2, 0, r1.1, r1.2);
        (r1.0, r2.0, r2.1, r2.2)
    }

    /// One simulation tick: input, spawning, kinematics, collision, in
    /// that order, with `delta` elapsed time units and `keys` the pressed
    /// movement keys.
    pub fn tick(&mut self, delta: u64, keys: KeyState)
        requires
            old(self).wf(),
        ensures
            final(self).wf(),
            final(self).enemy_pattern == old(self).enemy_pattern.spec_stepped(delta),
            ({
                let r = World::spec_tick_outcome(
                    old(self).combatants@,
                    old(self).enemy_pattern,
                    old(self).player_pool@,
                    old(self).enemy_pool@,
                    old(self).events@,
                    delta,
                    keys,
                );
                &&& final(self).player_pool@ == r.0
                &&& final(self).enemy_pool@ == r.1
                &&& final(self).combatants@ == r.2
                &&& final(self).events@ == r.3
            }),
    {
        let ghost w0 = *self;
        // input phase: the player moves by the pressed keys
        let mut player = self.combatants[0];
        move_player(&mut player, keys);
        self.combatants.set(0, player);

        // spawn phase: cooldowns tick; a completion fires one bullet from
        // the shooter's current position
        let ppos = player.pos;
        spawn_step(&mut player.gunner, ppos, &mut self.player_pool, delta);
        self.combatants.set(0, player);

        let mut enemy = self.combatants[1];
        let epos = enemy.pos;
        spawn_step(&mut enemy.gunner, epos, &mut self.enemy_pool, delta);
        self.combatants.set(1, enemy);

        // kinematics phase: bullets fly, the enemy follows its pattern
        advance_bullets(&mut self.player_pool);
        advance_bullets(&mut self.enemy_pool);
        advance_enemy(&mut enemy, &mut self.enemy_pattern, delta);
        self.combatants.set(1, enemy);

        proof {
            let player0 = w0.combatants@[0];
            let enemy0 = w0.combatants@[1];
            let player1 = Combatant {
                pos: spec_translated(player0.pos, spec_key_dir(keys), player0.speed),
                ..player0
            };
            let player2 = Combatant {
                gunner: Gunner {
                    shot_timer: player1.gunner.shot_timer.spec_ticked(delta),
                    ..player1.gunner
                },
                ..player1
            };
            let enemy1 = Combatant {
                gunner: Gunner {
                    shot_timer: enemy0.gunner.shot_timer.spec_ticked(delta),
                    ..enemy0.gunner
                },
                ..enemy0
            };
            let pattern1 = w0.enemy_pattern.spec_stepped(delta);
            let enemy2 = Combatant {
                pos: Vec2 {
                    x: spec_add_scaled(
                        enemy1.pos.x,
                        pattern1.velocities@[pattern1.index as int],
                        enemy1.speed,
                    ) as i32,
                    y: enemy1.pos.y,
                },
                ..enemy1
            };
            assert(player == player2);
            assert(enemy == enemy2);
            assert(self.combatants@ =~= seq![player2, enemy2]);
        }

        // collision phase: the player's bullets resolve first, then the
        // enemy's
        resolve_hits(&mut self.player_pool, &mut self.combatants, &mut self.events);
        resolve_hits(&mut self.enemy_pool, &mut self.combatants, &mut self.events);

        proof {
            lemma_tick_shape(w0, *self, delta, keys);
        }
    }

    /// Hand the accumulated notifications to the host and start an empty
    /// list; nothing else changes.
    pub fn take_events(&mut self) -> (evs: Vec<GameEvent>)
        ensures
            evs@ == old(self).events@,
            final(self).events@ == Seq::<GameEvent>::empty(),
            final(self).combatants == old(self).combatants,
            final(self).enemy_pattern == old(self).enemy_pattern,
            final(self).player_pool == old(self).player_pool,
            final(self).enemy_pool == old(self).enemy_pool,
    {
        let mut out: Vec<GameEvent> = Vec::new();
        core::mem::swap(&mut out, &mut self.events);
        out
    }
}

/// The post-collision bookkeeping of [`World::tick`]: given that the
/// tick's phases produced `w1` from `w0`, the outcome views match
/// [`World::spec_tick_outcome`] and well-formedness is preserved.
proof fn lemma_tick_shape(w0: World, w1: World, delta: u64, keys: KeyState)
    requires
        w0.wf(),
        ({
            let r = World::spec_tick_outcome(
                w0.combatants@,
                w0.enemy_pattern,
                w0.player_pool@,
                w0.enemy_pool@,
                w0.events@,
                delta,
                keys,
            );
            &&& w1.player_pool@ == r.0
            &&& w1.enemy_pool@ == r.1
            &&& w1.combatants@ == r.2
            &&& w1.events@ == r.3
            &&& w1.enemy_pattern == w0.enemy_pattern.spec_stepped(delta)
        }),
    ensures
        w1.wf(),
{
    let player0 = w0.combatants@[0];
    let enemy0 = w0.combatants@[1];
    let player1 = Combatant {
        pos: spec_translated(player0.pos, spec_key_dir(keys), player0.speed),
        ..player0
    };
    let player2 = Combatant {
        gunner: Gunner {
            shot_timer: player1.gunner.shot_timer.spec_ticked(delta),
            ..player1.gunner
        },
        ..player1
    };
    let enemy1 = Combatant {
        gunner: Gunner {
            shot_timer: enemy0.gunner.shot_timer.spec_ticked(delta),
            ..enemy0.gunner
        },
        ..enemy0
    };
    let pattern1 = w0.enemy_pattern.spec_stepped(delta);
    let enemy2 = Combatant {
        pos: Vec2 {
            x: spec_add_scaled(
                enemy1.pos.x,
                pattern1.velocities@[pattern1.index as int],
                enemy1.speed,
            ) as i32,
            y: enemy1.pos.y,
        },
        ..enemy1
    };
    let ppool1 = spec_spawn(player1.gunner, player1.pos, w0.player_pool@, delta);
    let epool1 = spec_spawn(enemy0.gunner, enemy0.pos, w0.enemy_pool@, delta);
    let ppool2 = spec_advanced(ppool1);
    let epool2 = spec_advanced(epool1);
    let targets = seq![player2, enemy2];
    let r1 = spec_resolve_from(ppool2, 0, targets, w0.events@);
    let r2 = spec_resolve_from(epool2, 0, r1.1, r1.2);

    // the pattern stays well-formed
    crate::timer::lemma_spec_ticked_wf(w0.enemy_pattern.advance_timer, delta);
    vstd::arithmetic::div_mod::lemma_mod_division_less_than_divisor(
        w0.enemy_pattern.index + w0.enemy_pattern.advance_timer.spec_completions(delta),
        w0.enemy_pattern.velocities@.len() as int,
    );

    // pool tags survive spawning ...
    lemma_acquire_preserves_static(w0.player_pool@, player1.pos);
    lemma_acquire_preserves_static(w0.enemy_pool@, enemy0.pos);
    assert forall|i: int| 0 <= i < ppool1.len() implies (#[trigger] ppool1[i].tag)
        is Player by {
        if player1.gunner.spec_can_shoot(delta) {
            assert(ppool1[i].tag == w0.player_pool@[i].tag);
        }
    }
    assert forall|i: int| 0 <= i < epool1.len() implies (#[trigger] epool1[i].tag) is Enemy by {
        if enemy0.gunner.spec_can_shoot(delta) {
            assert(epool1[i].tag == w0.enemy_pool@[i].tag);
        }
    }
    // ... and kinematics ...
    assert forall|i: int| 0 <= i < ppool2.len() implies (#[trigger] ppool2[i].tag)
        is Player by {
        assert(ppool2[i] == spec_moved_slot(ppool1[i]));
    }
    assert forall|i: int| 0 <= i < epool2.len() implies (#[trigger] epool2[i].tag) is Enemy by {
        assert(epool2[i] == spec_moved_slot(epool1[i]));
    }
    // ... and both rounds of collision resolution; the combatants keep
    // everything but their health.
    lemma_resolve_frame(ppool2, 0, targets, w0.events@);
    lemma_resolve_frame(epool2, 0, r1.1, r1.2);
    assert(target_frame_eq(r1.1[0], player2));
    assert(target_frame_eq(r1.1[1], enemy2));
    assert(target_frame_eq(r2.1[0], r1.1[0]));
    assert(target_frame_eq(r2.1[1], r1.1[1]));
    assert forall|i: int| 0 <= i < w1.player_pool@.len() implies (#[trigger] w1.player_pool@[i].tag)
        is Player by {
        assert(crate::collide::slot_statics_eq(r1.0[i], ppool2[i]));
    }
    assert forall|i: int| 0 <= i < w1.enemy_pool@.len() implies (#[trigger] w1.enemy_pool@[i].tag)
        is Enemy by {
        assert(crate::collide::slot_statics_eq(r2.0[i], epool2[i]));
    }
}

/// The stock game, exactly as it is set up at startup: the player at
/// (0, -200) with one health point and a tenth-of-a-second cooldown, the
/// enemy at (0, 200) with two hundred health points, a patrol pattern of
/// eight scripted velocities advancing every one and a half seconds, and
/// five recyclable bullets per side.  Time is counted in milliseconds.
pub fn standard_world() -> (w: World)
    ensures
        w.wf(),
        w.combatants@ == seq![standard_player(), standard_enemy()],
        w.enemy_pattern.velocities@ == seq![-1i32, 0i32, 1i32, 0i32, 1i32, 0i32, -1i32, 0i32],
        w.enemy_pattern.index == 0,
        w.enemy_pattern.advance_timer == (Timer {
            period: 1500,
            elapsed: 0,
            mode: TimerMode::Repeating,
        }),
        w.player_pool@.len() == 5,
        forall|i: int| 0 <= i < 5 ==> w.player_pool@[i] == standard_player_bullet(),
        w.enemy_pool@.len() == 5,
        forall|i: int| 0 <= i < 5 ==> w.enemy_pool@[i] == standard_enemy_bullet(),
        w.events@ == Seq::<GameEvent>::empty(),
{
    let player = Combatant {
        pos: Vec2 { x: 0, y: -200 },
        speed: 10,
        gunner: Gunner::new(Tag::Player, 100),
        health: HealthRecord { tag: Tag::Player, health: 1, hitbox_radius: 25 },
    };
    let enemy = Combatant {
        pos: Vec2 { x: 0, y: 200 },
        speed: 5,
        gunner: Gunner::new(Tag::Enemy, 500),
        health: HealthRecord { tag: Tag::Enemy, health: 200, hitbox_radius: 100 },
    };
    let velocities: Vec<i32> = vec![-1, 0, 1, 0, 1, 0, -1, 0];
    proof {
        assert(velocities@ =~= seq![-1i32, 0i32, 1i32, 0i32, 1i32, 0i32, -1i32, 0i32]);
    }
    let pattern = MovementPattern::new(velocities, 1500);
    let player_pool = Pool::new(5, Tag::Player, Vec2 { x: 0, y: 1 }, 20, 1);
    let enemy_pool = Pool::new(5, Tag::Enemy, Vec2 { x: 0, y: -1 }, 2, 1);
    World::new(player, enemy, pattern, player_pool, enemy_pool)
}

/// The player record the stock game starts with.
pub open spec fn standard_player() -> Combatant {
    Combatant {
        pos: Vec2 { x: 0i32, y: -200i32 },
        speed: 10,
        gunner: Gunner {
            tag: Tag::Player,
            shot_timer: Timer { period: 100, elapsed: 0, mode: TimerMode::Repeating },
        },
        health: HealthRecord { tag: Tag::Player, health: 1, hitbox_radius: 25 },
    }
}

/// The enemy record the stock game starts with.
pub open spec fn standard_enemy() -> Combatant {
    Combatant {
        pos: Vec2 { x: 0, y: 200 },
        speed: 5,
        gunner: Gunner {
            tag: Tag::Enemy,
            shot_timer: Timer { period: 500, elapsed: 0, mode: TimerMode::Repeating },
        },
        health: HealthRecord { tag: Tag::Enemy, health: 200, hitbox_radius: 100 },
    }
}

/// A fresh slot of the player's pool: upward bullets, twenty units per
/// tick, one damage.
pub open spec fn standard_player_bullet() -> BulletSlot {
    BulletSlot {
        active: false,
        pos: Vec2 { x: 0, y: 0 },
        dir: Vec2 { x: 0, y: 1 },
        speed: 20,
        tag: Tag::Player,
        damage: 1,
    }
}

/// A fresh slot of the enemy's pool: downward bullets, two units per
/// tick, one damage.
pub open spec fn standard_enemy_bullet() -> BulletSlot {
    BulletSlot {
        active: false,
        pos: Vec2 { x: 0, y: 0 },
        dir: Vec2 { x: 0i32, y: -1i32 },
        speed: 2,
        tag: Tag::Enemy,
        damage: 1,
    }
}

} // verus!
