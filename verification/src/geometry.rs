//! Fixed-point plane geometry shared by the movement, collision and trigger
//! phases.
//!
//! A coordinate is an `i64` counting thousandths of a world unit, so `UNIT`
//! (1000) stands for a length of one. Direction vectors use the same scale: a
//! unit direction has components drawn from `0`, `±UNIT` and `±DIAG`, where
//! `DIAG` is one thousandth short of `UNIT / sqrt(2)` rounded down.

use vstd::prelude::*;

verus! {

/// Fixed-point scale: `1000` stands for `1.0`.
pub const UNIT: i64 = 1000;

/// `floor(UNIT / sqrt(2))`: the component of a diagonal unit direction.
pub const DIAG: i64 = 707;

/// Largest magnitude a coordinate handled by the spatial phases may have.
/// Room coordinates are far below this; the bound only keeps the fixed-point
/// arithmetic comfortably inside `i64`.
pub const COORD_LIMIT: i64 = 1_000_000_000_000;

/// Largest half-extent or offset a collider or trigger area may have.
pub const EXTENT_LIMIT: i64 = 1_000_000_000;

/// A point of the room. `x` and `y` locate the entity on the floor plan;
/// `z` is a visual lift used only by presentation, never by collision.
#[derive(Clone, Copy, PartialEq, Eq, Structural, Debug)]
pub struct Position {
    pub x: i64,
    pub y: i64,
    pub z: i64,
}

/// A plane vector in the fixed-point scale, used for direction messages.
#[derive(Clone, Copy, PartialEq, Eq, Structural, Debug)]
pub struct Vec2 {
    pub x: i64,
    pub y: i64,
}

/// A direction message's components are at most `UNIT` in magnitude.
pub open spec fn dir_ok(v: Vec2) -> bool {
    -UNIT <= v.x <= UNIT && -UNIT <= v.y <= UNIT
}

/// The eight unit directions of the fixed-point model: the four axis
/// directions of length `UNIT` and the four diagonals with components `DIAG`.
pub open spec fn is_unit_dir(v: Vec2) -> bool {
    ||| (v.x == 0 && (v.y == UNIT || v.y == -UNIT))
    ||| (v.y == 0 && (v.x == UNIT || v.x == -UNIT))
    ||| ((v.x == DIAG || v.x == -DIAG) && (v.y == DIAG || v.y == -DIAG))
}

/// Magnitude of an integer.
pub open spec fn abs_int(i: int) -> int {
    if i >= 0 {
        i
    } else {
        -i
    }
}

/// A coordinate the spatial phases accept.
pub open spec fn coord_ok(c: int) -> bool {
    -COORD_LIMIT <= c <= COORD_LIMIT
}

/// A position whose coordinates the spatial phases accept.
pub open spec fn pos_ok(p: Position) -> bool {
    coord_ok(p.x as int) && coord_ok(p.y as int) && coord_ok(p.z as int)
}

/// Floor of the square root of a natural number.
pub open spec fn sqrt_floor(n: nat) -> nat
    decreases n,
{
    if n == 0 {
        0
    } else {
        let r = sqrt_floor((n - 1) as nat);
        if (r + 1) * (r + 1) <= n {
            r + 1
        } else {
            r
        }
    }
}

/// `sqrt_floor(n)` is the unique natural `r` with `r * r <= n < (r+1) * (r+1)`.
pub proof fn lemma_sqrt_floor_bounds(n: nat)
    ensures
        sqrt_floor(n) * sqrt_floor(n) <= n,
        n < (sqrt_floor(n) + 1) * (sqrt_floor(n) + 1),
    decreases n,
{
    if n == 0 {
        assert(sqrt_floor(n) == 0);
        assert(n < (sqrt_floor(n) + 1) * (sqrt_floor(n) + 1)) by (nonlinear_arith)
            requires n == 0, sqrt_floor(n) == 0;
    } else {
        lemma_sqrt_floor_bounds((n - 1) as nat);
        let r = sqrt_floor((n - 1) as nat);
        let s = sqrt_floor(n);
        if (r + 1) * (r + 1) <= n {
            assert(s == r + 1);
            assert(n == s * s);
            assert(n < (s + 1) * (s + 1)) by (nonlinear_arith)
                requires n == s * s;
        } else {
            assert(s == r);
        }
    }
}

/// Any natural bracketing `n` between consecutive squares is `sqrt_floor(n)`.
pub proof fn lemma_sqrt_floor_unique(n: nat, r: nat)
    requires
        r * r <= n,
        n < (r + 1) * (r + 1),
    ensures
        r == sqrt_floor(n),
{
    lemma_sqrt_floor_bounds(n);
    let s = sqrt_floor(n);
    if r < s {
        assert((r + 1) * (r + 1) <= s * s) by (nonlinear_arith)
            requires r + 1 <= s;
    }
    if s < r {
        assert((s + 1) * (s + 1) <= r * r) by (nonlinear_arith)
            requires s + 1 <= r;
    }
}

/// Computes `sqrt_floor` of `n` by binary search.
pub fn isqrt(n: u64) -> (r: u64)
    ensures
        r == sqrt_floor(n as nat),
{
    if n == 0 {
        return 0;
    }
    let mut lo: u64 = 0;
    let mut hi: u64 = 0x1_0000_0000;
    assert(n < hi * hi) by (nonlinear_arith)
        requires hi == 0x1_0000_0000, n <= u64::MAX;
    while lo + 1 < hi
        invariant
            lo < hi <= 0x1_0000_0000,
            lo * lo <= n < hi * hi,
        decreases hi - lo,
    {
        let mid = lo + (hi - lo) / 2;
        assert(lo < mid < hi);
        assert(mid * mid <= 0xffff_ffff_0000_0000) by (nonlinear_arith)
            requires mid < 0x1_0000_0000u64;
        if mid * mid <= n {
            lo = mid;
        } else {
            hi = mid;
        }
    }
    proof {
        lemma_sqrt_floor_unique(n as nat, lo as nat);
    }
    lo
}

/// Clamps a coordinate into the inclusive range `lo ..= hi`.
pub open spec fn clamp_spec(c: int, lo: int, hi: int) -> int {
    if c < lo {
        lo
    } else if c > hi {
        hi
    } else {
        c
    }
}

/// Clamps a coordinate into the inclusive range `lo ..= hi`.
pub fn clamp_coord(c: i64, lo: i64, hi: i64) -> (r: i64)
    requires
        lo <= hi,
    ensures
        r == clamp_spec(c as int, lo as int, hi as int),
{
    if c < lo {
        lo
    } else if c > hi {
        hi
    } else {
        c
    }
}

} // verus!
