//! Geometry for pointer hit-testing: point-in-circle, point-in-rectangle,
//! and the signed angle between two points about a center.
//!
//! Angles are fixed-point radians (millionths). The arctangent is a
//! piecewise-rational approximation, exact against its own spec; the
//! quadrant handling follows the usual two-argument arctangent convention,
//! with results in `(-PI_FP, PI_FP]`.

use crate::fixed::{lemma_div_le, mul_div, sabs, SCALE};
use crate::vec2::{bounded, Vec2, COORD_LIMIT};
use vstd::prelude::*;

verus! {

/// Both components within twice [`COORD_LIMIT`]: enough room for a
/// difference of two bounded points.
pub open spec fn bounded2(v: Vec2) -> bool {
    -2 * COORD_LIMIT <= v.x <= 2 * COORD_LIMIT && -2 * COORD_LIMIT <= v.y <= 2 * COORD_LIMIT
}

/// A quarter turn in fixed-point radians.
pub const QUARTER_PI_FP: u64 = 785_398;

/// A half turn in fixed-point radians.
pub const HALF_PI_FP: u64 = 1_570_796;

/// Half a revolution in fixed-point radians.
pub const PI_FP: u64 = 3_141_593;

/// A full revolution in fixed-point radians.
pub const TWO_PI_FP: u64 = 6_283_185;

/// Arctangent of a ratio in `[0, 1]` (fixed point), in fixed-point radians:
/// a quarter-turn ramp with a parabolic correction.
pub open spec fn spec_atan_unit(z: int) -> int {
    z * (QUARTER_PI_FP as int) / (SCALE as int) + (z * ((SCALE as int) - z) / (SCALE as int))
        * 273_000 / (SCALE as int)
}

/// Two-argument arctangent over fixed-point coordinates, in `(-PI, PI]`
/// fixed-point radians; `0` when both arguments are `0`.
pub open spec fn spec_atan2(y: int, x: int) -> int {
    let ax = sabs(x);
    let ay = sabs(y);
    let base = if ax == 0 && ay == 0 {
        0
    } else if ax >= ay {
        spec_atan_unit(ay * (SCALE as int) / ax)
    } else {
        (HALF_PI_FP as int) - spec_atan_unit(ax * (SCALE as int) / ay)
    };
    if x >= 0 && y >= 0 {
        base
    } else if x < 0 && y >= 0 {
        (PI_FP as int) - base
    } else if x < 0 {
        -((PI_FP as int) - base)
    } else {
        -base
    }
}

/// The signed angle swept from `a` to `b` about `center`: the difference of
/// the two arctangents.
pub open spec fn spec_angle(center: Vec2, a: Vec2, b: Vec2) -> int {
    spec_atan2(a.y - center.y, a.x - center.x) - spec_atan2(b.y - center.y, b.x - center.x)
}

/// `pos` within (or on) the circle at `center` of the given radius.
pub open spec fn spec_in_circle(pos: Vec2, center: Vec2, radius: int) -> bool {
    (pos.x - center.x) * (pos.x - center.x) + (pos.y - center.y) * (pos.y - center.y) <= radius
        * radius
}

/// `pos` within (or on) the axis-aligned rectangle with corner `corner` and
/// extent `size`.
pub open spec fn spec_in_rect(pos: Vec2, corner: Vec2, size: Vec2) -> bool {
    corner.x <= pos.x <= corner.x + size.x && corner.y <= pos.y <= corner.y + size.y
}

/// Point-in-circle test.
pub fn circle(pos: Vec2, center: Vec2, radius: i64) -> (hit: bool)
    requires
        bounded2(pos),
        bounded2(center),
        0 <= radius <= COORD_LIMIT,
    ensures
        hit == spec_in_circle(pos, center, radius as int),
{
    let dx: i128 = pos.x as i128 - center.x as i128;
    let dy: i128 = pos.y as i128 - center.y as i128;
    proof {
        assert(0 <= dx * dx <= (16 * COORD_LIMIT) * (COORD_LIMIT as int) && 0 <= dy * dy <= (16
            * COORD_LIMIT) * (COORD_LIMIT as int) && 0 <= radius * radius <= (16 * COORD_LIMIT) * (
        COORD_LIMIT as int)) by (nonlinear_arith)
            requires
                -4 * COORD_LIMIT <= dx <= 4 * COORD_LIMIT,
                -4 * COORD_LIMIT <= dy <= 4 * COORD_LIMIT,
                0 <= radius <= COORD_LIMIT,
        ;
    }
    dx * dx + dy * dy <= (radius as i128) * (radius as i128)
}

/// Squared distance between two points.
pub open spec fn spec_dist2(a: Vec2, b: Vec2) -> int {
    (a.x - b.x) * (a.x - b.x) + (a.y - b.y) * (a.y - b.y)
}

/// Whether two points lie at least `d` apart.
pub fn dist_at_least(a: Vec2, b: Vec2, d: i64) -> (r: bool)
    requires
        bounded2(a),
        bounded2(b),
        0 <= d <= COORD_LIMIT,
    ensures
        r == (spec_dist2(a, b) >= d * d),
{
    let dx: i128 = a.x as i128 - b.x as i128;
    let dy: i128 = a.y as i128 - b.y as i128;
    proof {
        assert(0 <= dx * dx <= (16 * COORD_LIMIT) * (COORD_LIMIT as int) && 0 <= dy * dy <= (16
            * COORD_LIMIT) * (COORD_LIMIT as int) && 0 <= d * d <= (16 * COORD_LIMIT) * (
        COORD_LIMIT as int)) by (nonlinear_arith)
            requires
                -4 * COORD_LIMIT <= dx <= 4 * COORD_LIMIT,
                -4 * COORD_LIMIT <= dy <= 4 * COORD_LIMIT,
                0 <= d <= COORD_LIMIT,
        ;
    }
    dx * dx + dy * dy >= (d as i128) * (d as i128)
}

/// Point-in-rectangle test.
pub fn rect(pos: Vec2, corner: Vec2, size: Vec2) -> (hit: bool)
    requires
        bounded2(pos),
        bounded2(corner),
        bounded2(size),
    ensures
        hit == spec_in_rect(pos, corner, size),
{
    pos.x >= corner.x && pos.x <= corner.x + size.x && pos.y >= corner.y && pos.y <= corner.y
        + size.y
}

/// Arctangent of `num / den` scaled into fixed point, for `num <= den`.
fn atan_unit(num: u64, den: u64) -> (r: u64)
    requires
        0 < den <= 4 * COORD_LIMIT,
        num <= den,
    ensures
        r == spec_atan_unit(num * (SCALE as int) / (den as int)),
        r <= 853_648,
{
    proof {
        assert(num * SCALE <= den * SCALE) by (nonlinear_arith)
            requires
                num <= den,
                0 <= SCALE,
        ;
        lemma_div_le(num * SCALE, den * SCALE, den as int);
        assert((den * SCALE) / (den as int) == SCALE) by (nonlinear_arith)
            requires
                0 < den,
        ;
    }
    let z: u64 = mul_div(num, SCALE, den);
    let ramp: u64 = mul_div(z, QUARTER_PI_FP, SCALE);
    proof {
        assert(z * (SCALE - z) <= 250_000_000_000int) by (nonlinear_arith)
            requires
                0 <= z <= SCALE,
        ;
        lemma_div_le(z * (SCALE - z), 250_000_000_000int, SCALE as int);
    }
    let bow: u64 = mul_div(z, SCALE - z, SCALE);
    let correction: u64 = mul_div(bow, 273_000, SCALE);
    proof {
        lemma_div_le(z * (QUARTER_PI_FP as int), SCALE * (QUARTER_PI_FP as int), SCALE as int);
        assert(z * (QUARTER_PI_FP as int) <= SCALE * (QUARTER_PI_FP as int)) by (nonlinear_arith)
            requires
                0 <= z <= SCALE,
        ;
        lemma_div_le(bow * 273_000, 250_000 * 273_000int, SCALE as int);
        assert(bow * 273_000 <= 250_000 * 273_000int) by (nonlinear_arith)
            requires
                0 <= bow <= 250_000,
        ;
    }
    ramp + correction
}

/// Two-argument arctangent in fixed-point radians.
pub fn atan2_fp(y: i64, x: i64) -> (r: i64)
    requires
        sabs(x as int) <= 4 * COORD_LIMIT,
        sabs(y as int) <= 4 * COORD_LIMIT,
    ensures
        r == spec_atan2(y as int, x as int),
        -(PI_FP as int) <= r <= PI_FP as int,
{
    let ax: u64 = if x >= 0 {
        x as u64
    } else {
        (-x) as u64
    };
    let ay: u64 = if y >= 0 {
        y as u64
    } else {
        (-y) as u64
    };
    let base: u64 = if ax == 0 && ay == 0 {
        0
    } else if ax >= ay {
        atan_unit(ay, ax)
    } else {
        HALF_PI_FP - atan_unit(ax, ay)
    };
    if x >= 0 && y >= 0 {
        base as i64
    } else if x < 0 && y >= 0 {
        (PI_FP - base) as i64
    } else if x < 0 {
        -((PI_FP - base) as i64)
    } else {
        -(base as i64)
    }
}

/// The signed angle swept from `a` to `b` about `center`, in fixed-point
/// radians.
pub fn angle(center: Vec2, a: Vec2, b: Vec2) -> (r: i64)
    requires
        bounded2(center),
        bounded2(a),
        bounded2(b),
    ensures
        r == spec_angle(center, a, b),
        sabs(r as int) <= 2 * PI_FP,
{
    let ta: i64 = atan2_fp(a.y - center.y, a.x - center.x);
    let tb: i64 = atan2_fp(b.y - center.y, b.x - center.x);
    ta - tb
}

} // verus!
