//! Core simulation logic of a minimal bullet-hell arcade game.
//!
//! The library models the gameplay that an engine host drives in discrete
//! ticks: restartable cooldown timers, a fixed-capacity bullet pool recycled
//! by activity, cooldown-gated spawning, scripted enemy motion from a cyclic
//! velocity pattern, integer-grid kinematics, and tag-based collision and
//! damage resolution with health tracking.
//!
//! Everything engine-side (windowing, rendering, asset loading, input
//! polling) stays outside: the host hands the core a per-tick elapsed time
//! and the set of pressed movement keys, and reads back positions, bullet
//! activity flags and the drained event list.
//!
//! Positions live on an integer grid and time is counted in integer
//! milliseconds, so every rule here is exact and verified.

pub mod collide;
pub mod combatant;
pub mod geom;
pub mod health;
pub mod kinematics;
pub mod pattern;
pub mod pool;
pub mod spawn;
pub mod timer;
pub mod world;
