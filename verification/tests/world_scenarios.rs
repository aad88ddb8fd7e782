//! End-to-end scenarios: spawning under cooldown, whole-world ticks, and
//! the drained event list.

use bullet_hell::combatant::{Combatant, Gunner};
use bullet_hell::geom::Vec2;
use bullet_hell::health::{GameEvent, HealthRecord, Tag};
use bullet_hell::kinematics::{move_player, KeyState};
use bullet_hell::pattern::MovementPattern;
use bullet_hell::pool::Pool;
use bullet_hell::spawn::spawn_step;
use bullet_hell::world::{standard_world, World};

const NO_KEYS: KeyState = KeyState { up: false, down: false, left: false, right: false };

#[test]
fn cooldown_spawning_exhausts_the_pool_without_crashing() {
    // a shooter at (0,-200) with a 100-unit cooldown and a pool of 5:
    // after 500 units in 100-unit ticks exactly 5 bullets are active,
    // each at (0,-200); the sixth completion acquires none
    let mut gunner = Gunner::new(Tag::Player, 100);
    let mut pool = Pool::new(5, Tag::Player, Vec2 { x: 0, y: 1 }, 20, 1);
    let pos = Vec2 { x: 0, y: -200 };
    for tick in 1..=5usize {
        spawn_step(&mut gunner, pos, &mut pool, 100);
        assert_eq!(pool.active_count(), tick);
    }
    for slot in &pool.slots {
        assert!(slot.active);
        assert_eq!(slot.pos, pos);
    }
    // the pool is exhausted: the sixth shot is silently dropped
    spawn_step(&mut gunner, pos, &mut pool, 100);
    assert_eq!(pool.active_count(), 5);
}

#[test]
fn incomplete_cooldown_spawns_nothing() {
    let mut gunner = Gunner::new(Tag::Player, 100);
    let mut pool = Pool::new(5, Tag::Player, Vec2 { x: 0, y: 1 }, 20, 1);
    spawn_step(&mut gunner, Vec2 { x: 0, y: 0 }, &mut pool, 99);
    assert_eq!(pool.active_count(), 0);
    // the partial progress is kept: one more unit completes the cooldown
    spawn_step(&mut gunner, Vec2 { x: 0, y: 0 }, &mut pool, 1);
    assert_eq!(pool.active_count(), 1);
}

#[test]
fn standard_world_matches_the_stock_setup() {
    let w = standard_world();
    assert_eq!(w.combatants.len(), 2);
    let player = &w.combatants[0];
    assert_eq!(player.pos, Vec2 { x: 0, y: -200 });
    assert_eq!(player.speed, 10);
    assert_eq!(player.health.tag, Tag::Player);
    assert_eq!(player.health.health, 1);
    assert_eq!(player.health.hitbox_radius, 25);
    assert_eq!(player.gunner.shot_timer.period, 100);
    let enemy = &w.combatants[1];
    assert_eq!(enemy.pos, Vec2 { x: 0, y: 200 });
    assert_eq!(enemy.speed, 5);
    assert_eq!(enemy.health.tag, Tag::Enemy);
    assert_eq!(enemy.health.health, 200);
    assert_eq!(enemy.health.hitbox_radius, 100);
    assert_eq!(enemy.gunner.shot_timer.period, 500);
    assert_eq!(w.enemy_pattern.velocities, vec![-1, 0, 1, 0, 1, 0, -1, 0]);
    assert_eq!(w.enemy_pattern.advance_timer.period, 1500);
    assert_eq!(w.player_pool.capacity(), 5);
    assert_eq!(w.enemy_pool.capacity(), 5);
    assert!(w.events.is_empty());
}

#[test]
fn first_world_ticks_spawn_move_and_patrol() {
    let mut w = standard_world();
    w.tick(100, NO_KEYS);
    // the player stood still and fired; the bullet has already flown
    // one step up before any collision test
    assert_eq!(w.combatants[0].pos, Vec2 { x: 0, y: -200 });
    assert!(w.player_pool.slots[0].active);
    assert_eq!(w.player_pool.slots[0].pos, Vec2 { x: 0, y: -180 });
    assert_eq!(w.player_pool.active_count(), 1);
    // the enemy patrols left at its first scripted velocity, fires
    // nothing yet (cooldown 500), and nobody was hit
    assert_eq!(w.combatants[1].pos, Vec2 { x: -5, y: 200 });
    assert_eq!(w.enemy_pool.active_count(), 0);
    assert!(w.events.is_empty());

    w.tick(100, NO_KEYS);
    assert_eq!(w.player_pool.slots[0].pos, Vec2 { x: 0, y: -160 });
    assert!(w.player_pool.slots[1].active);
    assert_eq!(w.player_pool.slots[1].pos, Vec2 { x: 0, y: -180 });
    assert_eq!(w.combatants[1].pos, Vec2 { x: -10, y: 200 });
}

#[test]
fn enemy_fires_on_its_fifth_tick() {
    let mut w = standard_world();
    for _ in 0..4 {
        w.tick(100, NO_KEYS);
        assert_eq!(w.enemy_pool.active_count(), 0);
    }
    w.tick(100, NO_KEYS);
    assert_eq!(w.enemy_pool.active_count(), 1);
    // spawned where the enemy still stood when the cooldown completed
    // (x = -20 after four patrol steps; it moves to -25 only after
    // spawning) and already flown one step down
    assert_eq!(w.enemy_pool.slots[0].pos, Vec2 { x: -20, y: 198 });
}

#[test]
fn diagonal_movement_is_additive_per_axis() {
    // two held keys move the full speed on both axes: the stock quirk,
    // deliberately preserved
    let mut player = Combatant {
        pos: Vec2 { x: 0, y: -200 },
        speed: 10,
        gunner: Gunner::new(Tag::Player, 100),
        health: HealthRecord { tag: Tag::Player, health: 1, hitbox_radius: 25 },
    };
    move_player(
        &mut player,
        KeyState { up: true, down: false, left: false, right: true },
    );
    assert_eq!(player.pos, Vec2 { x: 10, y: -190 });
    // opposite keys cancel
    move_player(
        &mut player,
        KeyState { up: true, down: true, left: true, right: true },
    );
    assert_eq!(player.pos, Vec2 { x: 10, y: -190 });
}

#[test]
fn world_tick_moves_the_player_by_the_keys() {
    let mut w = standard_world();
    w.tick(100, KeyState { up: true, down: false, left: false, right: true });
    assert_eq!(w.combatants[0].pos, Vec2 { x: 10, y: -190 });
    // the bullet fired this tick left from the moved position
    assert_eq!(w.player_pool.slots[0].pos, Vec2 { x: 10, y: -170 });
}

#[test]
fn events_report_hits_and_are_drained() {
    // a close-range world: the player's first bullet reaches the enemy
    // on the tick it is fired
    let player = Combatant {
        pos: Vec2 { x: 0, y: 0 },
        speed: 10,
        gunner: Gunner::new(Tag::Player, 100),
        health: HealthRecord { tag: Tag::Player, health: 10, hitbox_radius: 25 },
    };
    let enemy = Combatant {
        pos: Vec2 { x: 0, y: 30 },
        speed: 5,
        gunner: Gunner::new(Tag::Enemy, 1000000),
        health: HealthRecord { tag: Tag::Enemy, health: 2, hitbox_radius: 100 },
    };
    let pattern = MovementPattern::new(vec![0], 1000000);
    let player_pool = Pool::new(5, Tag::Player, Vec2 { x: 0, y: 1 }, 20, 1);
    let enemy_pool = Pool::new(5, Tag::Enemy, Vec2 { x: 0, y: -1 }, 2, 1);
    let mut w = World::new(player, enemy, pattern, player_pool, enemy_pool);

    w.tick(100, NO_KEYS);
    assert_eq!(w.combatants[1].health.health, 1);
    assert_eq!(w.events, vec![GameEvent::Hit { tag: Tag::Enemy, health: 1 }]);
    // the bullet was consumed by the hit
    assert_eq!(w.player_pool.active_count(), 0);

    // the host drains the list; nothing else changes
    let drained = w.take_events();
    assert_eq!(drained, vec![GameEvent::Hit { tag: Tag::Enemy, health: 1 }]);
    assert!(w.events.is_empty());
    assert_eq!(w.combatants[1].health.health, 1);

    // the next hit reaches zero: hit, then death, exactly once
    w.tick(100, NO_KEYS);
    assert_eq!(w.combatants[1].health.health, 0);
    assert_eq!(
        w.take_events(),
        vec![
            GameEvent::Hit { tag: Tag::Enemy, health: 0 },
            GameEvent::Death { tag: Tag::Enemy },
        ]
    );

    // the dead enemy is terminal: further bullets pass through it
    w.tick(100, NO_KEYS);
    assert_eq!(w.combatants[1].health.health, 0);
    assert!(w.take_events().is_empty());
}
