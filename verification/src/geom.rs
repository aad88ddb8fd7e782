//! Integer 2D geometry: grid positions, saturating displacement, and the
//! squared-distance test that collision resolution uses.

use vstd::prelude::*;

verus! {

/// A 2D point or direction on the integer grid.
///
/// Positions are points; a direction is a small vector (the stock game uses
/// the four axis unit vectors) that is scaled by a per-entity speed each
/// tick.
#[derive(Clone, Copy, PartialEq, Eq, Structural, Debug)]
pub struct Vec2 {
    pub x: i32,
    pub y: i32,
}

/// Clamp a mathematical integer into the `i32` range.
pub open spec fn clamp_i32(v: int) -> int {
    if v < i32::MIN as int {
        i32::MIN as int
    } else if v > i32::MAX as int {
        i32::MAX as int
    } else {
        v
    }
}

/// One coordinate advanced by `dir * speed`, saturating at the grid edge.
pub open spec fn spec_add_scaled(p: i32, dir: i32, speed: i32) -> int {
    clamp_i32(p + dir * speed)
}

/// A whole point advanced by `dir * speed` on both axes.
pub open spec fn spec_translated(p: Vec2, dir: Vec2, speed: i32) -> Vec2 {
    Vec2 {
        x: spec_add_scaled(p.x, dir.x, speed) as i32,
        y: spec_add_scaled(p.y, dir.y, speed) as i32,
    }
}

/// Squared Euclidean distance between two points, as a mathematical integer.
pub open spec fn dist_sq(a: Vec2, b: Vec2) -> int {
    (a.x - b.x) * (a.x - b.x) + (a.y - b.y) * (a.y - b.y)
}

/// Whether `a` lies strictly within `radius` of `b`: the collision test,
/// phrased over squared distances so it stays in the integers.
pub open spec fn within_radius(a: Vec2, b: Vec2, radius: u32) -> bool {
    dist_sq(a, b) < radius * radius
}

/// Advance coordinate `p` by `dir * speed`, saturating at the `i32` range.
pub fn add_scaled(p: i32, dir: i32, speed: i32) -> (r: i32)
    ensures
        r == spec_add_scaled(p, dir, speed),
{
    proof {
        assert((dir as int) * (speed as int) <= 0x4000_0000_0000_0000int
            && (dir as int) * (speed as int) >= -0x4000_0000_0000_0000int) by (nonlinear_arith)
            requires
                -0x8000_0000 <= dir <= 0x7fff_ffff,
                -0x8000_0000 <= speed <= 0x7fff_ffff,
        ;
    }
    let step: i64 = (dir as i64) * (speed as i64);
    let sum: i64 = (p as i64) + step;
    if sum < i32::MIN as i64 {
        i32::MIN
    } else if sum > i32::MAX as i64 {
        i32::MAX
    } else {
        sum as i32
    }
}

/// Advance a point by `dir * speed` on both axes, saturating per coordinate.
pub fn translated(p: Vec2, dir: Vec2, speed: i32) -> (r: Vec2)
    ensures
        r == spec_translated(p, dir, speed),
{
    Vec2 { x: add_scaled(p.x, dir.x, speed), y: add_scaled(p.y, dir.y, speed) }
}

/// Collision test: is `a` strictly closer than `radius` to `b`?
pub fn within(a: Vec2, b: Vec2, radius: u32) -> (r: bool)
    ensures
        r == within_radius(a, b, radius),
{
    let dx: i64 = (a.x as i64) - (b.x as i64);
    let dy: i64 = (a.y as i64) - (b.y as i64);
    proof {
        assert((dx as int) * (dx as int) + (dy as int) * (dy as int)
            <= 0x2_0000_0000_0000_0000int
            && (dx as int) * (dx as int) >= 0 && (dy as int) * (dy as int) >= 0)
            by (nonlinear_arith)
            requires
                -0x1_0000_0000 <= dx <= 0x1_0000_0000,
                -0x1_0000_0000 <= dy <= 0x1_0000_0000,
        ;
        assert((radius as int) * (radius as int) <= 0xffff_fffe_0000_0001int) by (nonlinear_arith)
            requires
                0 <= radius <= 0xffff_ffff,
        ;
    }
    let d2: i128 = (dx as i128) * (dx as i128) + (dy as i128) * (dy as i128);
    let r2: i128 = (radius as i128) * (radius as i128);
    d2 < r2
}

} // verus!
