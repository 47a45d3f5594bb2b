use vstd::prelude::*;

use crate::geometry::{dist_sq, distance_sq, mul_le, Vec2i};

pub mod physics;

use physics::CollisionState;

verus! {

/// Longest launch direction, in world units, before the strength is applied.
pub const MAX_LAUNCH_DISTANCE: u32 = 32;

/// The strength a frog is spawned with.
pub const DEFAULT_JUMP_STRENGTH: u32 = 10;

/// Multiplier from launch direction (world units) to velocity.
#[derive(Clone, Copy, Debug, PartialEq, Eq, Structural)]
pub struct JumpStrength(pub u32);

impl Default for JumpStrength {
    fn default() -> (r: JumpStrength)
        ensures
            r.0 == DEFAULT_JUMP_STRENGTH,
    {
        JumpStrength(DEFAULT_JUMP_STRENGTH)
    }
}

/// Linear velocity of an entity, in world units per second.
#[derive(Clone, Copy, Debug, Default, PartialEq, Eq, Structural)]
pub struct Velocity {
    pub x: i64,
    pub y: i64,
}

/// `q` is `|c| * cap / sqrt(n)` rounded down: the largest whole `q` with
/// `q² · n ≤ c² · cap²`.
pub open spec fn is_scaled_floor(q: int, c: int, cap: int, n: int) -> bool {
    0 <= q && q * q * n <= c * c * (cap * cap) && c * c * (cap * cap) < (q + 1) * (q + 1) * n
}

pub open spec fn scaled_floor(c: int, cap: int, n: int) -> int {
    choose|q: int| is_scaled_floor(q, c, cap, n)
}

/// `c * cap / sqrt(n)`, rounded toward zero.
pub open spec fn clamped_component(c: int, cap: int, n: int) -> int {
    if c >= 0 {
        scaled_floor(c, cap, n)
    } else {
        -scaled_floor(c, cap, n)
    }
}

/// The launch velocity for a drag from `world_start` to `world_end`.
///
/// The direction is `world_start - world_end` (the frog flies away from the
/// pull). Up to `MAX_LAUNCH_DISTANCE` it is multiplied by the strength as it
/// is; beyond, it is rescaled to length `MAX_LAUNCH_DISTANCE * strength`:
/// each component is `d_c * MAX_LAUNCH_DISTANCE * strength / |d|`, with the
/// exact length `|d|`, rounded toward zero.
pub open spec fn launch_of(world_start: Vec2i, world_end: Vec2i, strength: int) -> (int, int) {
    let dx = world_start.x - world_end.x;
    let dy = world_start.y - world_end.y;
    let n = dist_sq(world_start, world_end);
    if n <= MAX_LAUNCH_DISTANCE * MAX_LAUNCH_DISTANCE {
        (dx * strength, dy * strength)
    } else {
        let cap = MAX_LAUNCH_DISTANCE * strength;
        (clamped_component(dx, cap, n), clamped_component(dy, cap, n))
    }
}

proof fn lemma_scaled_floor_unique(a: int, b: int, c: int, cap: int, n: int)
    requires
        n > 0,
        is_scaled_floor(a, c, cap, n),
        is_scaled_floor(b, c, cap, n),
    ensures
        a == b,
{
    if a < b {
        assert((a + 1) * (a + 1) * n <= b * b * n) by (nonlinear_arith)
            requires
                0 <= a,
                a + 1 <= b,
                n > 0,
        ;
    } else if b < a {
        assert((b + 1) * (b + 1) * n <= a * a * n) by (nonlinear_arith)
            requires
                0 <= b,
                b + 1 <= a,
                n > 0,
        ;
    }
}

/// A value that meets `is_scaled_floor` is `scaled_floor`.
pub proof fn lemma_scaled_floor_is(q: int, c: int, cap: int, n: int)
    requires
        n > 0,
        is_scaled_floor(q, c, cap, n),
    ensures
        scaled_floor(c, cap, n) == q,
{
    lemma_scaled_floor_unique(q, scaled_floor(c, cap, n), c, cap, n);
}

/// `scaled_floor` is well defined when `|c|` is at most the length.
proof fn lemma_scaled_floor_exists(c: int, cap: int, n: int, q: int)
    requires
        n > 0,
        c * c <= n,
        0 <= q <= cap,
        q * q * n <= c * c * (cap * cap),
    ensures
        is_scaled_floor(scaled_floor(c, cap, n), c, cap, n),
    decreases cap - q,
{
    if c * c * (cap * cap) < (q + 1) * (q + 1) * n {
        lemma_scaled_floor_is(q, c, cap, n);
    } else {
        assert(c * c * (cap * cap) < (cap + 1) * (cap + 1) * n) by (nonlinear_arith)
            requires
                c * c <= n,
                n > 0,
                cap >= 0,
        ;
        lemma_scaled_floor_exists(c, cap, n, q + 1);
    }
}

/// `c * cap / sqrt(n)` rounded toward zero, by bisection on the magnitude.
fn scale_component(c: i64, cap: u64, n: u128) -> (r: i64)
    requires
        0 < n < 0x2_0000_0000_0000_0000,
        c * c <= n,
        -0x1_0000_0000 < c < 0x1_0000_0000,
        cap < 0x40_0000_0000,
    ensures
        r == clamped_component(c as int, cap as int, n as int),
{
    let a: u64 = if c >= 0 {
        c as u64
    } else {
        (-c) as u64
    };
    assert(a * a == c * c) by (nonlinear_arith)
        requires
            a == c || a == -c,
    ;
    assert(a * a < 0x1_0000_0000_0000_0000 && cap * cap < 0x1000_0000_0000_0000_0000)
        by (nonlinear_arith)
        requires
            a < 0x1_0000_0000,
            cap < 0x40_0000_0000,
    ;
    let c2: u128 = a as u128 * a as u128;
    let cap2: u128 = cap as u128 * cap as u128;
    let mut lo: u64 = 0;
    let mut hi: u64 = cap + 1;
    assert(c2 * cap2 < (cap + 1) * (cap + 1) * n && 0 <= c2 * cap2) by (nonlinear_arith)
        requires
            c2 <= n,
            n > 0,
            cap2 == cap * cap,
            c2 >= 0,
            cap >= 0,
    ;
    assert(0 * 0 * n == 0) by (nonlinear_arith);
    while lo + 1 < hi
        invariant
            lo < hi <= cap + 1,
            cap < 0x40_0000_0000,
            0 < n < 0x2_0000_0000_0000_0000,
            c2 < 0x1_0000_0000_0000_0000,
            cap2 < 0x1000_0000_0000_0000_0000,
            lo * lo * n <= c2 * cap2,
            c2 * cap2 < hi * hi * n,
        decreases hi - lo,
    {
        let mid: u64 = lo + (hi - lo) / 2;
        assert(mid * mid < 0x1000_0000_0000_0000_0000) by (nonlinear_arith)
            requires
                mid < 0x40_0000_0000,
        ;
        let sq: u128 = mid as u128 * mid as u128;
        if mul_le(sq, n, c2, cap2) {
            lo = mid;
        } else {
            hi = mid;
        }
    }
    assert(is_scaled_floor(lo as int, c as int, cap as int, n as int));
    proof {
        lemma_scaled_floor_is(lo as int, c as int, cap as int, n as int);
    }
    if c >= 0 {
        lo as i64
    } else {
        -(lo as i64)
    }
}

/// The velocity of a launch from a drag between two world points.
pub fn launch_velocity(world_start: Vec2i, world_end: Vec2i, jump_strength: &JumpStrength) -> (r:
    Velocity)
    ensures
        (r.x as int, r.y as int) == launch_of(world_start, world_end, jump_strength.0 as int),
{
    let dx: i64 = world_start.x as i64 - world_end.x as i64;
    let dy: i64 = world_start.y as i64 - world_end.y as i64;
    let k: u64 = jump_strength.0 as u64;
    let n = distance_sq(world_start, world_end);
    assert(dx * dx >= 0 && dy * dy >= 0) by (nonlinear_arith);
    let max_dist: u128 = MAX_LAUNCH_DISTANCE as u128;
    if n <= max_dist * max_dist {
        assert(-32 <= dx <= 32 && -32 <= dy <= 32) by (nonlinear_arith)
            requires
                dx * dx + dy * dy <= 1024,
                dx * dx >= 0,
                dy * dy >= 0,
        ;
        assert(-0x40_0000_0000 < dx * k < 0x40_0000_0000 && -0x40_0000_0000 < dy * k
            < 0x40_0000_0000) by (nonlinear_arith)
            requires
                -32 <= dx <= 32,
                -32 <= dy <= 32,
                k < 0x1_0000_0000,
        ;
        Velocity { x: dx * (k as i64), y: dy * (k as i64) }
    } else {
        assert(32 * k < 0x40_0000_0000) by (nonlinear_arith)
            requires
                k < 0x1_0000_0000,
        ;
        let cap: u64 = MAX_LAUNCH_DISTANCE as u64 * k;
        Velocity { x: scale_component(dx, cap, n), y: scale_component(dy, cap, n) }
    }
}

/// Applies a committed release to the entity's velocity, and tells whether
/// it launched.
///
/// A launch happens only when the entity is grounded and both ends of the
/// drag could be placed in the world; it replaces the velocity. Otherwise
/// the velocity is kept.
pub fn apply_launch(
    collision_state: &CollisionState,
    world_start: Option<Vec2i>,
    world_end: Option<Vec2i>,
    jump_strength: &JumpStrength,
    velocity: &mut Velocity,
) -> (launched: bool)
    ensures
        launched == (collision_state.bottom && world_start is Some && world_end is Some),
        launched ==> (final(velocity).x as int, final(velocity).y as int) == launch_of(
            world_start->0,
            world_end->0,
            jump_strength.0 as int,
        ),
        !launched ==> *final(velocity) == *old(velocity),
{
    if collision_state.is_grounded() {
        if let (Some(start_pos), Some(end_pos)) = (world_start, world_end) {
            *velocity = launch_velocity(start_pos, end_pos, jump_strength);
            return true;
        }
    }
    false
}

/// A launch flies away from the pull: each velocity component has the sign
/// of the matching component of `world_start - world_end` (and is zero where
/// it is zero); a drag no longer than `MAX_LAUNCH_DISTANCE` is scaled by the
/// strength exactly; and the speed never exceeds
/// `MAX_LAUNCH_DISTANCE * strength`. A longer drag is rescaled to that speed
/// within rounding: each component is the exact `d_c * cap / |d|` rounded
/// toward zero, so it lies within one unit of it.
pub proof fn lemma_launch_direction_and_bound(world_start: Vec2i, world_end: Vec2i, strength: u32)
    ensures
        ({
            let v = launch_of(world_start, world_end, strength as int);
            let dx = world_start.x - world_end.x;
            let dy = world_start.y - world_end.y;
            let n = dist_sq(world_start, world_end);
            let cap = MAX_LAUNCH_DISTANCE * strength;
            let ax = if v.0 >= 0 { v.0 } else { -v.0 };
            let ay = if v.1 >= 0 { v.1 } else { -v.1 };
            &&& (dx > 0 ==> v.0 >= 0) && (dx < 0 ==> v.0 <= 0) && (dx == 0 ==> v.0 == 0)
            &&& (dy > 0 ==> v.1 >= 0) && (dy < 0 ==> v.1 <= 0) && (dy == 0 ==> v.1 == 0)
            &&& n <= MAX_LAUNCH_DISTANCE * MAX_LAUNCH_DISTANCE ==> v == (dx * strength, dy
                * strength)
            &&& v.0 * v.0 + v.1 * v.1 <= cap * cap
            &&& n > MAX_LAUNCH_DISTANCE * MAX_LAUNCH_DISTANCE ==> {
                &&& v.0 * v.0 * n <= dx * dx * (cap * cap) < (ax + 1) * (ax + 1) * n
                &&& v.1 * v.1 * n <= dy * dy * (cap * cap) < (ay + 1) * (ay + 1) * n
                &&& (ax + 1) * (ax + 1) + (ay + 1) * (ay + 1) > cap * cap
            }
        }),
{
    let v = launch_of(world_start, world_end, strength as int);
    let dx = world_start.x - world_end.x;
    let dy = world_start.y - world_end.y;
    let k = strength as int;
    let cap = MAX_LAUNCH_DISTANCE * k;
    let n = dist_sq(world_start, world_end);
    assert(dx * dx >= 0 && dy * dy >= 0) by (nonlinear_arith);
    if n <= MAX_LAUNCH_DISTANCE * MAX_LAUNCH_DISTANCE {
        assert(v.0 * v.0 + v.1 * v.1 <= cap * cap && (dx > 0 ==> v.0 >= 0) && (dx < 0 ==> v.0 <= 0)
            && (dy > 0 ==> v.1 >= 0) && (dy < 0 ==> v.1 <= 0) && (dx == 0 ==> v.0 == 0) && (dy == 0
            ==> v.1 == 0)) by (nonlinear_arith)
            requires
                v == (dx * k, dy * k),
                dx * dx + dy * dy <= 1024,
                cap == 32 * k,
                k >= 0,
        ;
    } else {
        assert(0 * 0 * n == 0) by (nonlinear_arith);
        assert(dx * dx * (cap * cap) >= 0 && dy * dy * (cap * cap) >= 0) by (nonlinear_arith);
        lemma_scaled_floor_exists(dx, cap, n, 0);
        lemma_scaled_floor_exists(dy, cap, n, 0);
        let qx = scaled_floor(dx, cap, n);
        let qy = scaled_floor(dy, cap, n);
        assert(v.0 == (if dx >= 0 { qx } else { -qx }));
        assert(v.1 == (if dy >= 0 { qy } else { -qy }));
        let ax = if v.0 >= 0 { v.0 } else { -v.0 };
        let ay = if v.1 >= 0 { v.1 } else { -v.1 };
        assert(ax == qx && ay == qy);
        assert(v.0 * v.0 == qx * qx && v.1 * v.1 == qy * qy) by (nonlinear_arith)
            requires
                v.0 == qx || v.0 == -qx,
                v.1 == qy || v.1 == -qy,
        ;
        if dx == 0 {
            assert(qx == 0) by (nonlinear_arith)
                requires
                    qx >= 0,
                    qx * qx * n <= dx * dx * (cap * cap),
                    dx == 0,
                    n > 0,
            ;
        }
        if dy == 0 {
            assert(qy == 0) by (nonlinear_arith)
                requires
                    qy >= 0,
                    qy * qy * n <= dy * dy * (cap * cap),
                    dy == 0,
                    n > 0,
            ;
        }
        assert(qx * qx + qy * qy <= cap * cap) by (nonlinear_arith)
            requires
                qx * qx * n <= dx * dx * (cap * cap),
                qy * qy * n <= dy * dy * (cap * cap),
                dx * dx + dy * dy == n,
                n > 0,
        ;
        assert((qx + 1) * (qx + 1) + (qy + 1) * (qy + 1) > cap * cap) by (nonlinear_arith)
            requires
                dx * dx * (cap * cap) < (qx + 1) * (qx + 1) * n,
                dy * dy * (cap * cap) < (qy + 1) * (qy + 1) * n,
                dx * dx + dy * dy == n,
                n > 0,
        ;
    }
}

} // verus!
