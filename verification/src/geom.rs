//! Fixed-point plane geometry: world-space vectors in hundredths of a world
//! unit, integer square root, Euclidean distance, and the grid-to-world
//! coordinate transform.

use vstd::prelude::*;

verus! {

/// Bound on the coordinates the simulation works with, in hundredths of a
/// world unit (ten million world units from the origin on each axis).
pub const POS_LIMIT: i64 = 1_000_000_000;

/// A point or offset in world space. One unit of `x` or `y` is one hundredth
/// of a world unit.
#[derive(Clone, Copy, PartialEq, Eq, Structural, Debug)]
pub struct Vec2i {
    pub x: i64,
    pub y: i64,
}

impl Vec2i {
    /// Both coordinates are within the simulation's playing field.
    pub open spec fn in_world(self) -> bool {
        -POS_LIMIT <= self.x <= POS_LIMIT && -POS_LIMIT <= self.y <= POS_LIMIT
    }
}

/// The largest `r` with `r * r <= n`.
pub open spec fn sqrt_floor(n: nat) -> nat
    decreases n,
{
    if n == 0 {
        0
    } else {
        let r = sqrt_floor((n - 1) as nat);
        if (r + 1) * (r + 1) <= n {
            r + 1
        } else {
            r
        }
    }
}

/// `sqrt_floor(n)` squares to at most `n`, and the next integer squares past it.
pub proof fn lemma_sqrt_floor_bounds(n: nat)
    ensures
        sqrt_floor(n) * sqrt_floor(n) <= n,
        n < (sqrt_floor(n) + 1) * (sqrt_floor(n) + 1),
    decreases n,
{
    if n == 0 {
        assert(sqrt_floor(0) == 0);
        assert((sqrt_floor(n) + 1) * (sqrt_floor(n) + 1) >= 1) by (nonlinear_arith);
    } else {
        lemma_sqrt_floor_bounds((n - 1) as nat);
        let r = sqrt_floor((n - 1) as nat);
        if (r + 1) * (r + 1) <= n {
            assert(sqrt_floor(n) == r + 1);
            assert((r + 1) * (r + 1) < (r + 2) * (r + 2)) by (nonlinear_arith);
            assert(n < (r + 2) * (r + 2));
            assert(sqrt_floor(n) + 1 == r + 2);
        } else {
            assert(sqrt_floor(n) == r);
        }
    }
}

/// Any `r` that satisfies the floor-square-root bounds is `sqrt_floor(n)`.
pub proof fn lemma_sqrt_floor_unique(n: nat, r: nat)
    requires
        r * r <= n,
        n < (r + 1) * (r + 1),
    ensures
        r == sqrt_floor(n),
{
    lemma_sqrt_floor_bounds(n);
    let s = sqrt_floor(n);
    if r < s {
        assert((r + 1) * (r + 1) <= s * s) by (nonlinear_arith)
            requires
                r + 1 <= s;
    }
    if s < r {
        assert((s + 1) * (s + 1) <= r * r) by (nonlinear_arith)
            requires
                s + 1 <= r;
    }
}

/// A square below `n` has its root below `sqrt_floor(n)`.
pub proof fn lemma_sqrt_floor_at_least(n: nat, k: nat)
    requires
        k * k <= n,
    ensures
        k <= sqrt_floor(n),
{
    lemma_sqrt_floor_bounds(n);
    let s = sqrt_floor(n);
    if s < k {
        assert((s + 1) * (s + 1) <= k * k) by (nonlinear_arith)
            requires
                s + 1 <= k;
    }
}

/// Integer square root by bisection.
pub fn isqrt(n: u64) -> (r: u64)
    ensures
        r == sqrt_floor(n as nat),
{
    let mut lo: u64 = 0;
    let mut hi: u64 = 4_294_967_296;
    proof {
        assert((4_294_967_296 as int) * (4_294_967_296 as int) > (n as int)) by (nonlinear_arith)
            requires
                n <= 18_446_744_073_709_551_615u64;
    }
    while lo + 1 < hi
        invariant
            lo < hi <= 4_294_967_296,
            (lo as int) * (lo as int) <= n as int,
            (n as int) < (hi as int) * (hi as int),
        decreases hi - lo,
    {
        let mid = lo + (hi - lo) / 2;
        proof {
            assert((mid as int) * (mid as int) <= (4_294_967_296 as int) * (4_294_967_296 as int))
                by (nonlinear_arith)
                requires
                    mid <= 4_294_967_296u64;
            assert((4_294_967_296 as int) * (4_294_967_296 as int) <= u128::MAX as int);
        }
        let sq: u128 = (mid as u128) * (mid as u128);
        if sq <= (n as u128) {
            lo = mid;
        } else {
            hi = mid;
        }
    }
    proof {
        lemma_sqrt_floor_unique(n as nat, lo as nat);
    }
    lo
}

/// Squared Euclidean distance between two points, as unbounded arithmetic.
pub open spec fn dist_sq(a: Vec2i, b: Vec2i) -> int {
    (a.x - b.x) * (a.x - b.x) + (a.y - b.y) * (a.y - b.y)
}

/// Euclidean distance between two points, rounded down, in hundredths of a
/// world unit.
pub fn distance_cu(a: Vec2i, b: Vec2i) -> (d: u64)
    requires
        a.in_world(),
        b.in_world(),
    ensures
        d == sqrt_floor(dist_sq(a, b) as nat),
{
    let dx: u64 = if a.x >= b.x {
        (a.x - b.x) as u64
    } else {
        (b.x - a.x) as u64
    };
    let dy: u64 = if a.y >= b.y {
        (a.y - b.y) as u64
    } else {
        (b.y - a.y) as u64
    };
    proof {
        assert((dx as int) * (dx as int) == (a.x - b.x) * (a.x - b.x)) by (nonlinear_arith)
            requires
                dx as int == a.x - b.x || dx as int == b.x - a.x;
        assert((dy as int) * (dy as int) == (a.y - b.y) * (a.y - b.y)) by (nonlinear_arith)
            requires
                dy as int == a.y - b.y || dy as int == b.y - a.y;
        assert(0 <= (dx as int) * (dx as int) <= 4_000_000_000_000_000_000) by (nonlinear_arith)
            requires
                dx <= 2_000_000_000u64;
        assert(0 <= (dy as int) * (dy as int) <= 4_000_000_000_000_000_000) by (nonlinear_arith)
            requires
                dy <= 2_000_000_000u64;
    }
    let dsq: u64 = dx * dx + dy * dy;
    isqrt(dsq)
}

/// World-space position of a grid cell: each grid step spans the tile's pixel
/// width scaled by the map factor. `scale_centi` is the map scale factor in
/// hundredths, so the product of pixels and `scale_centi` lands directly in
/// hundredths of a world unit.
pub open spec fn grid_to_world_spec(row: int, col: int, tile_px: int, scale_centi: int) -> Vec2i {
    Vec2i { x: (row * tile_px * scale_centi) as i64, y: (col * tile_px * scale_centi) as i64 }
}

/// Maps a grid cell to world coordinates, the affine transform applied to
/// every generated record.
pub fn grid_to_world(row: usize, col: usize, tile_px: u32, scale_centi: u32) -> (w: Vec2i)
    requires
        row <= 1_000_000,
        col <= 1_000_000,
        tile_px <= 1_024,
        scale_centi <= 10_000,
    ensures
        w == grid_to_world_spec(row as int, col as int, tile_px as int, scale_centi as int),
{
    let r64: i64 = row as i64;
    let c64: i64 = col as i64;
    let t64: i64 = tile_px as i64;
    let s64: i64 = scale_centi as i64;
    proof {
        assert(0 <= (r64 as int) * (t64 as int) <= 1_024_000_000) by (nonlinear_arith)
            requires
                0 <= r64 <= 1_000_000,
                0 <= t64 <= 1_024;
        assert(0 <= (c64 as int) * (t64 as int) <= 1_024_000_000) by (nonlinear_arith)
            requires
                0 <= c64 <= 1_000_000,
                0 <= t64 <= 1_024;
    }
    let rt: i64 = r64 * t64;
    let ct: i64 = c64 * t64;
    proof {
        assert(0 <= (rt as int) * (s64 as int) <= 10_240_000_000_000) by (nonlinear_arith)
            requires
                0 <= rt <= 1_024_000_000,
                0 <= s64 <= 10_000;
        assert(0 <= (ct as int) * (s64 as int) <= 10_240_000_000_000) by (nonlinear_arith)
            requires
                0 <= ct <= 1_024_000_000,
                0 <= s64 <= 10_000;
    }
    let x: i64 = rt * s64;
    let y: i64 = ct * s64;
    Vec2i { x, y }
}

} // verus!
