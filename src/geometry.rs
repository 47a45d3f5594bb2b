use vstd::prelude::*;

verus! {

/// A point or offset with whole-unit coordinates (screen pixels or world units).
#[derive(Clone, Copy, Debug, PartialEq, Eq, Structural)]
pub struct Vec2i {
    pub x: i32,
    pub y: i32,
}

/// Squared Euclidean distance between two points.
pub open spec fn dist_sq(a: Vec2i, b: Vec2i) -> int {
    (a.x - b.x) * (a.x - b.x) + (a.y - b.y) * (a.y - b.y)
}

/// `r` is the integer square root of `n`, rounded down.
pub open spec fn is_floor_sqrt(r: int, n: int) -> bool {
    0 <= r && r * r <= n && n < (r + 1) * (r + 1)
}

/// Largest value `dist_sq` can take on two `Vec2i` points.
pub const MAX_DIST_SQ: u128 = 0x2_0000_0000_0000_0000;

impl Vec2i {
    pub fn new(x: i32, y: i32) -> (r: Vec2i)
        ensures
            r.x == x,
            r.y == y,
    {
        Vec2i { x, y }
    }
}

pub proof fn lemma_dist_sq_bounds(a: Vec2i, b: Vec2i)
    ensures
        0 <= (a.x - b.x) * (a.x - b.x) < 0x1_0000_0000_0000_0000,
        0 <= (a.y - b.y) * (a.y - b.y) < 0x1_0000_0000_0000_0000,
        0 <= dist_sq(a, b) < MAX_DIST_SQ,
{
    let dx = a.x - b.x;
    let dy = a.y - b.y;
    assert(dx * dx < 0x1_0000_0000_0000_0000) by (nonlinear_arith)
        requires
            -0x1_0000_0000 < dx < 0x1_0000_0000,
    ;
    assert(dy * dy < 0x1_0000_0000_0000_0000) by (nonlinear_arith)
        requires
            -0x1_0000_0000 < dy < 0x1_0000_0000,
    ;
    assert(dx * dx >= 0) by (nonlinear_arith);
    assert(dy * dy >= 0) by (nonlinear_arith);
}

/// Squared Euclidean distance between two points, computed exactly.
pub fn distance_sq(a: Vec2i, b: Vec2i) -> (r: u128)
    ensures
        r == dist_sq(a, b),
        r < MAX_DIST_SQ,
{
    proof {
        lemma_dist_sq_bounds(a, b);
    }
    let dx: i128 = a.x as i128 - b.x as i128;
    let dy: i128 = a.y as i128 - b.y as i128;
    (dx * dx + dy * dy) as u128
}

/// Integer square root rounded down, by bisection.
pub fn floor_sqrt(n: u128) -> (r: u64)
    requires
        n < MAX_DIST_SQ,
    ensures
        is_floor_sqrt(r as int, n as int),
        r < 0x2_0000_0000,
{
    let mut lo: u64 = 0;
    let mut hi: u64 = 0x2_0000_0000;
    assert(0x2_0000_0000u64 * 0x2_0000_0000u64 == 0x4_0000_0000_0000_0000int) by (nonlinear_arith);
    while lo + 1 < hi
        invariant
            lo < hi <= 0x2_0000_0000,
            lo * lo <= n,
            n < hi * hi,
        decreases hi - lo,
    {
        let mid: u64 = lo + (hi - lo) / 2;
        assert(mid * mid <= 0x4_0000_0000_0000_0000) by (nonlinear_arith)
            requires
                mid <= 0x2_0000_0000,
        ;
        let sq: u128 = mid as u128 * mid as u128;
        if sq <= n {
            lo = mid;
        } else {
            hi = mid;
        }
    }
    lo
}

/// Bound on the factors that `mul_le` compares.
pub const WIDE_FACTOR_BOUND: u128 = 0x1000_0000_0000_0000_0000;

/// `a * b` as `hi * 2^64 + lo` with `lo < 2^64`, for factors below 2^76.
fn mul_split(a: u128, b: u128) -> (r: (u128, u128))
    requires
        a < WIDE_FACTOR_BOUND,
        b < WIDE_FACTOR_BOUND,
    ensures
        r.1 < 0x1_0000_0000_0000_0000,
        a * b == r.0 * 0x1_0000_0000_0000_0000 + r.1,
{
    let m: u128 = 0x1_0000_0000_0000_0000;
    let a1 = a / m;
    let a0 = a % m;
    let b1 = b / m;
    let b0 = b % m;
    assert(a1 < 0x1000 && b1 < 0x1000);
    assert(a1 * b1 < 0x100_0000 && a1 * b0 < 0x1000_0000_0000_0000_0000 && a0 * b1
        < 0x1000_0000_0000_0000_0000 && a0 * b0 < 0x1_0000_0000_0000_0000_0000_0000_0000_0000)
        by (nonlinear_arith)
        requires
            a1 < 0x1000,
            b1 < 0x1000,
            a0 < 0x1_0000_0000_0000_0000,
            b0 < 0x1_0000_0000_0000_0000,
    ;
    let low = a0 * b0;
    let hi = a1 * b1 * m + a1 * b0 + a0 * b1 + low / m;
    let lo = low % m;
    assert(a * b == (a1 * b1 * m + a1 * b0 + a0 * b1) * m + a0 * b0) by (nonlinear_arith)
        requires
            a == a1 * m + a0,
            b == b1 * m + b0,
    ;
    (hi, lo)
}

/// Compares two products of factors below 2^76 exactly.
pub fn mul_le(a: u128, b: u128, c: u128, d: u128) -> (r: bool)
    requires
        a < WIDE_FACTOR_BOUND,
        b < WIDE_FACTOR_BOUND,
        c < WIDE_FACTOR_BOUND,
        d < WIDE_FACTOR_BOUND,
    ensures
        r == (a * b <= c * d),
{
    let (h1, l1) = mul_split(a, b);
    let (h2, l2) = mul_split(c, d);
    assert((a * b <= c * d) == (h1 < h2 || (h1 == h2 && l1 <= l2))) by (nonlinear_arith)
        requires
            a * b == h1 * 0x1_0000_0000_0000_0000 + l1,
            c * d == h2 * 0x1_0000_0000_0000_0000 + l2,
            l1 < 0x1_0000_0000_0000_0000,
            l2 < 0x1_0000_0000_0000_0000,
            h1 >= 0,
            h2 >= 0,
    ;
    h1 < h2 || (h1 == h2 && l1 <= l2)
}

} // verus!
