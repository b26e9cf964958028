//! Fixed-point arithmetic for the simulation core.
//!
//! A quantity is stored as an integer number of millionths ([`SCALE`] per
//! unit). The helpers here give exact integer contracts for the few
//! operations the update rules need: truncating multiply-divide, clamping,
//! and an integer square root.

use vstd::arithmetic::div_mod::{
    lemma_div_is_ordered, lemma_div_multiples_vanish, lemma_div_pos_is_pos,
};
use vstd::prelude::*;

verus! {

/// Number of fixed-point steps per unit: values are stored in millionths.
pub const SCALE: u64 = 1_000_000;

/// Ceiling every heat pool is held under. Heat has no design ceiling; this
/// one only keeps the fixed-point arithmetic inside the machine integers,
/// a thousand million units above any reachable temperature.
pub const HEAT_LIMIT: u64 = 1_000_000_000_000_000;

/// `x` held into `[lo, hi]` (mathematical clamp; meaningful when `lo <= hi`).
pub open spec fn clamp(x: int, lo: int, hi: int) -> int {
    if x < lo {
        lo
    } else if x > hi {
        hi
    } else {
        x
    }
}

/// Truncating division of a signed value by a positive divisor.
///
/// Spec-level `/` on `int` is Euclidean; the executable code computes with
/// magnitudes, which truncates toward zero, and this function is the spec
/// of that.
pub open spec fn tdiv(a: int, d: int) -> int {
    if a >= 0 {
        a / d
    } else {
        -((-a) / d)
    }
}

/// Magnitude of a signed value.
pub open spec fn sabs(a: int) -> int {
    if a >= 0 {
        a
    } else {
        -a
    }
}

/// The integer square root: the greatest `r` with `r * r <= x`, and `0`
/// where no such `r` exists (negative arguments), so the result is never
/// negative.
pub open spec fn sqrt_floor(x: int) -> int {
    let r = choose|r: int| 0 <= r && #[trigger] (r * r) <= x && x < (r + 1) * (r + 1);
    if 0 <= r && r * r <= x && x < (r + 1) * (r + 1) {
        r
    } else {
        0
    }
}

/// Only one integer satisfies the square-root window, so any witness is
/// `sqrt_floor`.
pub proof fn lemma_sqrt_floor_unique(x: int, r: int)
    requires
        0 <= r,
        r * r <= x,
        x < (r + 1) * (r + 1),
    ensures
        sqrt_floor(x) == r,
{
    assert(0 <= r && r * r <= x && x < (r + 1) * (r + 1));
    let s = sqrt_floor(x);
    assert(0 <= s && s * s <= x && x < (s + 1) * (s + 1));
    assert(s == r) by (nonlinear_arith)
        requires
            0 <= r,
            r * r <= x,
            x < (r + 1) * (r + 1),
            0 <= s,
            s * s <= x,
            x < (s + 1) * (s + 1),
    ;
}

/// `a * b / d`, exact over the mathematical integers.
pub(crate) fn mul_div(a: u64, b: u64, d: u64) -> (r: u64)
    requires
        d > 0,
        a * b / (d as int) <= u64::MAX,
    ensures
        r == a * b / (d as int),
{
    proof {
        assert(a * b <= u64::MAX * u64::MAX) by (nonlinear_arith)
            requires
                a <= u64::MAX,
                b <= u64::MAX,
        ;
        lemma_div_le(a * b, u64::MAX * u64::MAX, d as int);
    }
    let p: u128 = (a as u128) * (b as u128);
    let q: u128 = p / (d as u128);
    q as u64
}

/// `a * b / d` with truncation toward zero, for signed factors.
pub(crate) fn mul_div_i(a: i64, b: i64, d: u64) -> (r: i64)
    requires
        d > 0,
        -i64::MAX <= a,
        -i64::MAX <= b,
        sabs(a * b) / (d as int) <= i64::MAX,
    ensures
        r == tdiv(a * b, d as int),
{
    let am: u64 = if a >= 0 {
        a as u64
    } else {
        (-a) as u64
    };
    let bm: u64 = if b >= 0 {
        b as u64
    } else {
        (-b) as u64
    };
    proof {
        assert(am * bm == sabs(a * b)) by (nonlinear_arith)
            requires
                am == sabs(a as int),
                bm == sabs(b as int),
        ;
        assert(am * bm <= u64::MAX * u64::MAX) by (nonlinear_arith)
            requires
                am <= u64::MAX,
                bm <= u64::MAX,
        ;
        lemma_div_le(am * bm, u64::MAX * u64::MAX, d as int);
    }
    let m: u128 = ((am as u128) * (bm as u128)) / (d as u128);
    let neg: bool = (a < 0 && b > 0) || (a > 0 && b < 0);
    proof {
        assert((a * b < 0 <==> (a < 0 && b > 0) || (a > 0 && b < 0)) && (a * b >= 0 <==> !((a < 0
            && b > 0) || (a > 0 && b < 0)))) by (nonlinear_arith);
        lemma_div_pos_is_pos(sabs(a * b), d as int);
    }
    if neg {
        -(m as i64)
    } else {
        m as i64
    }
}

/// The smaller of two values.
pub(crate) fn min64(a: u64, b: u64) -> (r: u64)
    ensures
        r == if a <= b { a as int } else { b as int },
{
    if a <= b {
        a
    } else {
        b
    }
}

/// The greatest `r` with `r * r <= x`, by bisection.
pub(crate) fn isqrt(x: u64) -> (r: u64)
    ensures
        r * r <= x < (r + 1) * (r + 1),
        r == sqrt_floor(x as int),
{
    let mut lo: u64 = 0;
    let mut hi: u64 = 0x1_0000_0000;
    proof {
        assert((0x1_0000_0000u64 as int) * (0x1_0000_0000u64 as int) > u64::MAX as int);
    }
    while lo + 1 < hi
        invariant
            lo < hi <= 0x1_0000_0000,
            lo * lo <= x,
            x < hi * hi,
        decreases hi - lo,
    {
        let mid: u64 = lo + (hi - lo) / 2;
        proof {
            assert(mid * mid <= u64::MAX * u64::MAX) by (nonlinear_arith)
                requires
                    mid <= u64::MAX,
            ;
        }
        let sq: u128 = (mid as u128) * (mid as u128);
        if sq <= x as u128 {
            lo = mid;
        } else {
            hi = mid;
        }
    }
    proof {
        lemma_sqrt_floor_unique(x as int, lo as int);
    }
    lo
}

/// One straight segment of a piecewise-linear curve: the value at `n`
/// between the points `(lo, flo)` and `(hi, fhi)`.
pub open spec fn seg(n: int, lo: int, flo: int, hi: int, fhi: int) -> int {
    flo + (n - lo) * (fhi - flo) / (hi - lo)
}

/// The neutron-flux response curve: a piecewise-linear fixed-point stand-in
/// for raising a flux in `[0, 3]` units to the power `51/50`, sampled at
/// quarter- and half-unit knots. It is exact at `0` and at one unit.
pub open spec fn spec_flux_curve(n: int) -> int {
    if n <= 250_000 {
        seg(n, 0, 0, 250_000, 243_244)
    } else if n <= 500_000 {
        seg(n, 250_000, 243_244, 500_000, 493_116)
    } else if n <= 1_000_000 {
        seg(n, 500_000, 493_116, 1_000_000, 1_000_000)
    } else if n <= 1_500_000 {
        seg(n, 1_000_000, 1_000_000, 1_500_000, 1_512_272)
    } else if n <= 2_000_000 {
        seg(n, 1_500_000, 1_512_272, 2_000_000, 2_027_944)
    } else if n <= 2_500_000 {
        seg(n, 2_000_000, 2_027_944, 2_500_000, 2_546_233)
    } else {
        seg(n, 2_500_000, 2_546_233, 3_000_000, 3_066_653)
    }
}

/// One segment of the flux curve, executable.
fn seg_at(n: u64, lo: u64, flo: u64, hi: u64, fhi: u64) -> (r: u64)
    requires
        lo <= n <= hi,
        lo < hi,
        flo <= fhi,
        fhi <= 4_000_000,
    ensures
        r == seg(n as int, lo as int, flo as int, hi as int, fhi as int),
        flo <= r <= fhi,
{
    proof {
        assert((n - lo) * (fhi - flo) <= (hi - lo) * (fhi - flo)) by (nonlinear_arith)
            requires
                0 <= n - lo <= hi - lo,
                0 <= fhi - flo,
        ;
        assert(((hi - lo) * (fhi - flo)) / (hi - lo) == fhi - flo) by (nonlinear_arith)
            requires
                0 < hi - lo,
        ;
        lemma_div_le((n - lo) * (fhi - flo), (hi - lo) * (fhi - flo), hi - lo);
    }
    let d: u64 = mul_div(n - lo, fhi - flo, hi - lo);
    flo + d
}

/// The flux curve, executable and exact against its spec.
pub(crate) fn flux_curve(n: u64) -> (r: u64)
    requires
        n <= 3_000_000,
    ensures
        r == spec_flux_curve(n as int),
        r <= 3_066_653,
        n == 0 ==> r == 0,
{
    if n <= 250_000 {
        seg_at(n, 0, 0, 250_000, 243_244)
    } else if n <= 500_000 {
        seg_at(n, 250_000, 243_244, 500_000, 493_116)
    } else if n <= 1_000_000 {
        seg_at(n, 500_000, 493_116, 1_000_000, 1_000_000)
    } else if n <= 1_500_000 {
        seg_at(n, 1_000_000, 1_000_000, 1_500_000, 1_512_272)
    } else if n <= 2_000_000 {
        seg_at(n, 1_500_000, 1_512_272, 2_000_000, 2_027_944)
    } else if n <= 2_500_000 {
        seg_at(n, 2_000_000, 2_027_944, 2_500_000, 2_546_233)
    } else {
        seg_at(n, 2_500_000, 2_546_233, 3_000_000, 3_066_653)
    }
}

/// Raising a nonnegative fixed-point value to the power `7/2`: the cube
/// times the square root, each rounded down in fixed point.
pub open spec fn spec_pow_7_2(x: int) -> int {
    ((x * x / (SCALE as int)) * x / (SCALE as int)) * sqrt_floor(x * (SCALE as int)) / (
    SCALE as int)
}

/// Executable `7/2` power for arguments up to ten units, exact against its
/// spec.
pub(crate) fn pow_7_2(x: u64) -> (r: u64)
    requires
        x <= 10_000_000,
    ensures
        r == spec_pow_7_2(x as int),
        r <= 3_200_000_000,
        x <= SCALE ==> r <= SCALE,
{
    proof {
        assert(x * x <= 100_000_000_000_000int) by (nonlinear_arith)
            requires
                x <= 10_000_000,
        ;
        lemma_div_le(x * x, 100_000_000_000_000int, SCALE as int);
    }
    let x2: u64 = mul_div(x, x, SCALE);
    proof {
        assert(x2 * x <= 100_000_000int * 10_000_000int) by (nonlinear_arith)
            requires
                x2 <= 100_000_000,
                x <= 10_000_000,
        ;
        lemma_div_le(x2 * x, 100_000_000int * 10_000_000int, SCALE as int);
    }
    let x3: u64 = mul_div(x2, x, SCALE);
    let sq: u64 = isqrt(x * SCALE);
    proof {
        assert(sq * sq <= x * SCALE < (sq + 1) * (sq + 1));
        assert(sq <= 3_163_000) by (nonlinear_arith)
            requires
                sq * sq <= x * SCALE,
                x <= 10_000_000,
                0 <= sq,
        ;
        assert(x2 <= 100_000_000);
        assert(x3 <= 1_000_000_000);
        assert(x3 * sq <= 1_000_000_000int * 3_163_000int) by (nonlinear_arith)
            requires
                x3 <= 1_000_000_000,
                sq <= 3_163_000,
        ;
        lemma_div_le(x3 * sq, 1_000_000_000int * 3_163_000int, SCALE as int);
        if x <= SCALE {
            assert(sq <= SCALE) by (nonlinear_arith)
                requires
                    sq * sq <= x * SCALE,
                    x <= SCALE,
                    0 <= sq,
            ;
            assert(x * x <= SCALE * SCALE) by (nonlinear_arith)
                requires
                    0 <= x <= SCALE,
            ;
            lemma_div_le(x * x, SCALE * SCALE, SCALE as int);
            assert((SCALE * SCALE) / (SCALE as int) == SCALE);
            assert(x2 * x <= SCALE * SCALE) by (nonlinear_arith)
                requires
                    0 <= x2 <= SCALE,
                    0 <= x <= SCALE,
            ;
            lemma_div_le(x2 * x, SCALE * SCALE, SCALE as int);
            assert(x3 <= SCALE);
            assert(x3 * sq <= SCALE * SCALE) by (nonlinear_arith)
                requires
                    x3 <= SCALE,
                    sq <= SCALE,
            ;
            lemma_div_le(x3 * sq, SCALE * SCALE, SCALE as int);
            assert((SCALE * SCALE) / (SCALE as int) == SCALE);
        }
    }
    mul_div(x3, sq, SCALE)
}

/// The `7/2` power of a nonnegative value is nonnegative.
pub proof fn lemma_pow_7_2_nonneg(x: int)
    requires
        x >= 0,
    ensures
        spec_pow_7_2(x) >= 0,
{
    assert(x * x >= 0) by (nonlinear_arith);
    lemma_div_le(0, x * x, SCALE as int);
    assert((x * x / (SCALE as int)) * x >= 0) by (nonlinear_arith)
        requires
            x * x / (SCALE as int) >= 0,
            x >= 0,
    ;
    lemma_div_le(0, (x * x / (SCALE as int)) * x, SCALE as int);
    assert(((x * x / (SCALE as int)) * x / (SCALE as int)) * sqrt_floor(x * (SCALE as int)) >= 0)
        by (nonlinear_arith)
        requires
            (x * x / (SCALE as int)) * x / (SCALE as int) >= 0,
            sqrt_floor(x * (SCALE as int)) >= 0,
    ;
    lemma_div_le(
        0,
        ((x * x / (SCALE as int)) * x / (SCALE as int)) * sqrt_floor(x * (SCALE as int)),
        SCALE as int,
    );
}

/// Division by a positive divisor preserves order; stated here once so the
/// update rules can cite it by name.
pub proof fn lemma_div_le(a: int, b: int, d: int)
    requires
        0 <= a <= b,
        0 < d,
    ensures
        0 <= a / d <= b / d,
{
    lemma_div_pos_is_pos(a, d);
    lemma_div_is_ordered(a, b, d);
}

/// A mass-weighted mean of two values bounded by `m` stays in `[0, m]`.
pub proof fn lemma_mix_le(a: int, x: int, b: int, y: int, m: int)
    requires
        a > 0,
        b >= 0,
        0 <= x <= m,
        0 <= y <= m,
    ensures
        0 <= (a * x + b * y) / (a + b) <= m,
{
    assert(0 <= a * x + b * y <= (a + b) * m) by (nonlinear_arith)
        requires
            a > 0,
            b >= 0,
            0 <= x <= m,
            0 <= y <= m,
    ;
    lemma_div_le(a * x + b * y, (a + b) * m, a + b);
    assert(((a + b) * m) / (a + b) == m) by (nonlinear_arith)
        requires
            a + b > 0,
    ;
}

/// A flow held under fifty times a budget moves at most the budget in one
/// fixed step of a fiftieth of a second.
pub proof fn lemma_rate_limited(f: int, budget: int)
    requires
        0 <= f <= budget * 50,
    ensures
        0 <= f / 50 <= budget,
{
    lemma_div_le(f, budget * 50, 50);
    lemma_div_multiples_vanish(budget, 50);
}

/// The mass-weighted mean of two values, `(a * x + b * y) / (a + b)`.
pub(crate) fn mix(a: u64, x: u64, b: u64, y: u64) -> (r: u64)
    requires
        a > 0,
        a <= 1_000_000_000,
        b <= 1_000_000_000,
        x <= 4_000_000_000_000_000,
        y <= 4_000_000_000_000_000,
    ensures
        r == (a * x + b * y) / (a + b) as int,
        r <= if x >= y { x as int } else { y as int },
{
    proof {
        assert(a * x <= 1_000_000_000int * 4_000_000_000_000_000int && b * y <= 1_000_000_000int
            * 4_000_000_000_000_000int) by (nonlinear_arith)
            requires
                0 <= a <= 1_000_000_000,
                0 <= b <= 1_000_000_000,
                0 <= x <= 4_000_000_000_000_000,
                0 <= y <= 4_000_000_000_000_000,
        ;
        lemma_mix_le(a as int, x as int, b as int, y as int, if x >= y { x as int } else { y as int });
    }
    let num: u128 = (a as u128) * (x as u128) + (b as u128) * (y as u128);
    let den: u128 = (a as u128) + (b as u128);
    (num / den) as u64
}

} // verus!
