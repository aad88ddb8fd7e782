//! Component-level tests: geometry, timers, pools, health records and
//! movement patterns.

use bullet_hell::geom::{add_scaled, translated, within, Vec2};
use bullet_hell::health::{GameEvent, HealthRecord, Tag};
use bullet_hell::pattern::MovementPattern;
use bullet_hell::pool::Pool;
use bullet_hell::timer::{Timer, TimerMode};

#[test]
fn add_scaled_moves_by_direction_times_speed() {
    assert_eq!(add_scaled(100, 1, 20), 120);
    assert_eq!(add_scaled(100, -1, 20), 80);
    assert_eq!(add_scaled(100, 0, 20), 100);
    assert_eq!(add_scaled(-200, 1, 10), -190);
}

#[test]
fn add_scaled_saturates_at_the_grid_edge() {
    assert_eq!(add_scaled(i32::MAX - 5, 1, 10), i32::MAX);
    assert_eq!(add_scaled(i32::MIN + 5, -1, 10), i32::MIN);
    assert_eq!(add_scaled(0, 1, i32::MAX), i32::MAX);
}

#[test]
fn translated_moves_both_axes() {
    let p = translated(Vec2 { x: 3, y: -4 }, Vec2 { x: 1, y: -1 }, 5);
    assert_eq!(p, Vec2 { x: 8, y: -9 });
}

#[test]
fn within_is_strict_euclidean_distance() {
    // distance between (0,0) and (3,4) is exactly 5
    let a = Vec2 { x: 0, y: 0 };
    let b = Vec2 { x: 3, y: 4 };
    assert!(!within(a, b, 5));
    assert!(within(a, b, 6));
    assert!(within(a, a, 1));
    assert!(!within(a, a, 0));
}

#[test]
fn repeating_timer_counts_each_whole_period() {
    let mut t = Timer::new(100, TimerMode::Repeating);
    assert_eq!(t.tick(30), 0);
    assert_eq!(t.tick(70), 1);
    assert_eq!(t.tick(100), 1);
    assert_eq!(t.tick(50), 0);
    assert_eq!(t.tick(50), 1);
    assert_eq!(t.tick(100), 1);
}

#[test]
fn repeating_timer_is_chunking_invariant() {
    // the same 400 time units, chunked three ways, always complete a
    // period-100 timer exactly 4 times
    let chunkings: [&[u64]; 3] = [&[400], &[100, 100, 100, 100], &[30, 70, 100, 50, 50, 100]];
    for deltas in chunkings {
        let mut t = Timer::new(100, TimerMode::Repeating);
        let mut completions: u64 = 0;
        for &d in deltas {
            completions += t.tick(d);
        }
        assert_eq!(completions, 4);
    }
}

#[test]
fn repeating_timer_rolls_excess_into_next_cycle() {
    let mut t = Timer::new(100, TimerMode::Repeating);
    assert_eq!(t.tick(150), 1);
    assert_eq!(t.elapsed, 50);
    assert_eq!(t.tick(250), 3);
    assert_eq!(t.elapsed, 0);
}

#[test]
fn once_timer_stays_finished() {
    let mut t = Timer::new(50, TimerMode::Once);
    assert!(!t.finished());
    assert_eq!(t.tick(30), 0);
    assert_eq!(t.tick(30), 1);
    assert!(t.finished());
    assert_eq!(t.tick(100), 0);
    assert_eq!(t.tick(100), 0);
    assert!(t.finished());
}

#[test]
fn pool_acquires_lowest_index_first() {
    let mut pool = Pool::new(3, Tag::Player, Vec2 { x: 0, y: 1 }, 20, 1);
    assert_eq!(pool.capacity(), 3);
    assert_eq!(pool.active_count(), 0);
    let at = Vec2 { x: 7, y: -7 };
    assert_eq!(pool.acquire(at), Some(0));
    assert_eq!(pool.acquire(at), Some(1));
    assert_eq!(pool.acquire(at), Some(2));
    assert_eq!(pool.active_count(), 3);
    assert!(pool.slots[0].active);
    assert_eq!(pool.slots[0].pos, at);
}

#[test]
fn pool_round_trip_releases_exactly_one_slot() {
    // acquiring all N then releasing one makes exactly one slot available
    let mut pool = Pool::new(3, Tag::Player, Vec2 { x: 0, y: 1 }, 20, 1);
    let at = Vec2 { x: 0, y: 0 };
    assert_eq!(pool.acquire(at), Some(0));
    assert_eq!(pool.acquire(at), Some(1));
    assert_eq!(pool.acquire(at), Some(2));
    // exhausted: the shot is dropped, not an error
    assert_eq!(pool.acquire(at), None);
    pool.release(1);
    assert_eq!(pool.active_count(), 2);
    assert_eq!(pool.acquire(at), Some(1));
    assert_eq!(pool.acquire(at), None);
}

#[test]
fn damage_saturates_at_zero_health() {
    let mut events: Vec<GameEvent> = Vec::new();
    let mut r = HealthRecord { tag: Tag::Enemy, health: 5, hitbox_radius: 100 };
    r.take_damage(2, &mut events);
    assert_eq!(r.health, 3);
    assert_eq!(events, vec![GameEvent::Hit { tag: Tag::Enemy, health: 3 }]);
    // far more damage than health left: floors at zero, dies exactly once
    r.take_damage(9, &mut events);
    assert_eq!(r.health, 0);
    assert_eq!(
        events,
        vec![
            GameEvent::Hit { tag: Tag::Enemy, health: 3 },
            GameEvent::Hit { tag: Tag::Enemy, health: 0 },
            GameEvent::Death { tag: Tag::Enemy },
        ]
    );
}

#[test]
fn death_fires_exactly_on_reaching_zero() {
    let mut events: Vec<GameEvent> = Vec::new();
    let mut r = HealthRecord { tag: Tag::Player, health: 1, hitbox_radius: 25 };
    r.take_damage(1, &mut events);
    assert_eq!(r.health, 0);
    assert_eq!(
        events,
        vec![
            GameEvent::Hit { tag: Tag::Player, health: 0 },
            GameEvent::Death { tag: Tag::Player },
        ]
    );
}

#[test]
fn pattern_cycles_back_after_one_completion_per_velocity() {
    // the stock pattern of eight velocities with advance period 1500:
    // eight completions bring the index back to the start
    let velocities = vec![-1, 0, 1, 0, 1, 0, -1, 0];
    let mut p = MovementPattern::new(velocities.clone(), 1500);
    assert_eq!(p.current_velocity(), -1);
    for k in 1..=8u32 {
        p.step(1500);
        let expected = velocities[(k as usize) % 8];
        assert_eq!(p.current_velocity(), expected);
    }
    assert_eq!(p.index, 0);
    assert_eq!(p.current_velocity(), -1);
}

#[test]
fn pattern_cycles_back_under_rechunked_deltas() {
    // the same total elapsed time, differently chunked, still returns
    // the index to its start
    let mut p = MovementPattern::new(vec![-1, 0, 1, 0, 1, 0, -1, 0], 1500);
    let deltas: [u64; 9] = [1000, 2000, 1500, 500, 1000, 1500, 1500, 1500, 1500];
    // total = 12000 = 8 * 1500
    for d in deltas {
        p.step(d);
    }
    assert_eq!(p.index, 0);
}

#[test]
fn within_handles_the_whole_grid() {
    // the farthest two points on one axis lie u32::MAX apart; a radius
    // of u32::MAX still misses, because the test is strict
    let a = Vec2 { x: i32::MIN, y: 0 };
    let b = Vec2 { x: i32::MAX, y: 0 };
    assert!(!within(a, b, u32::MAX));
    assert!(within(Vec2 { x: i32::MIN, y: i32::MIN }, Vec2 { x: i32::MIN + 1, y: i32::MIN }, 2));
}

#[test]
fn zero_delta_ticks_change_nothing() {
    let mut t = Timer::new(100, TimerMode::Repeating);
    assert_eq!(t.tick(0), 0);
    assert_eq!(t.elapsed, 0);
    let mut p = MovementPattern::new(vec![4, 5], 100);
    p.step(0);
    assert_eq!(p.index, 0);
}

#[test]
fn empty_pool_is_always_exhausted() {
    let mut pool = Pool::new(0, Tag::Enemy, Vec2 { x: 0, y: -1 }, 2, 1);
    assert_eq!(pool.capacity(), 0);
    assert_eq!(pool.acquire(Vec2 { x: 0, y: 0 }), None);
    assert_eq!(pool.active_count(), 0);
}

#[test]
fn pattern_index_advances_only_on_completion() {
    let mut p = MovementPattern::new(vec![3, 9], 1000);
    p.step(999);
    assert_eq!(p.index, 0);
    assert_eq!(p.current_velocity(), 3);
    p.step(1);
    assert_eq!(p.index, 1);
    assert_eq!(p.current_velocity(), 9);
}
