//! Fixed-point circular functions for texture coordinates.
//!
//! Sphere texture mapping converts a unit normal to spherical angles.  The
//! angles only feed texture lookups, so a short polynomial approximation of
//! the arctangent is enough; each function is proved equal to its
//! specification-level mirror and bounded by half a turn.

use vstd::prelude::*;
use crate::fixed::{SCALE, sabs, fx_mul_spec, fx_div_spec, fx_sqrt_spec, fx_mul, fx_div, fx_sqrt,
    lemma_sqrt_floor_bounds, lemma_div_bound, lemma_sabs_mul};
use vstd::arithmetic::mul::lemma_mul_upper_bound;

verus! {

/// Half a turn, in fixed-point radians.
pub const PI_FX: i64 = 3_141_593;

/// A full turn, in fixed-point radians.
pub const TWO_PI_FX: i64 = 6_283_186;

/// A quarter turn, in fixed-point radians.
pub const HALF_PI_FX: i64 = 1_570_796;

/// An eighth of a turn, in fixed-point radians.
pub const QUARTER_PI_FX: i64 = 785_398;

/// Coefficient of the quadratic arctangent correction term.
pub const ATAN_K_FX: i64 = 273_000;

/// Arctangent of a ratio in `[0, 1]`: the quadratic approximation
/// `t * pi/4 + 0.273 * t * (1 - t)`.
pub open spec fn atan_unit_spec(t: int) -> int {
    fx_mul_spec(t, QUARTER_PI_FX as int) + fx_mul_spec(
        fx_mul_spec(t, SCALE - t),
        ATAN_K_FX as int,
    )
}

/// Four-quadrant arctangent over fixed-point coordinates, in `[-pi, pi]`.
pub open spec fn atan2_spec(y: int, x: int) -> int {
    if x == 0 && y == 0 {
        0
    } else {
        let ax = sabs(x);
        let ay = sabs(y);
        let base = if ax >= ay {
            atan_unit_spec(fx_div_spec(ay, ax))
        } else {
            HALF_PI_FX - atan_unit_spec(fx_div_spec(ax, ay))
        };
        let ang = if x >= 0 {
            base
        } else {
            PI_FX - base
        };
        if y < 0 {
            -ang
        } else {
            ang
        }
    }
}

/// Arcsine of a fixed-point value in `[-1, 1]`, via the arctangent.
pub open spec fn asin_spec(y: int) -> int {
    atan2_spec(y, fx_sqrt_spec(SCALE - fx_mul_spec(y, y)))
}

/// Arctangent of a ratio in `[0, 1]`, by the quadratic approximation.
fn atan_unit(t: i64) -> (r: i64)
    requires
        0 <= t <= SCALE,
    ensures
        r as int == atan_unit_spec(t as int),
        0 <= r <= 860_000,
{
    proof {
        lemma_div_bound(t as int * (QUARTER_PI_FX as int), SCALE as int, QUARTER_PI_FX as int);
        assert(t as int * (SCALE - t as int) <= 250_000_000_000) by (nonlinear_arith)
            requires
                0 <= t as int <= SCALE as int,
        ;
        lemma_div_bound(t as int * (SCALE - t as int), SCALE as int, 250_000);
    }
    let a: i64 = fx_mul(t, QUARTER_PI_FX);
    let m: i64 = fx_mul(t, SCALE - t);
    proof {
        lemma_div_bound(m as int * (ATAN_K_FX as int), SCALE as int, 68_250);
    }
    let b: i64 = fx_mul(m, ATAN_K_FX);
    a + b
}

/// Four-quadrant arctangent of fixed-point coordinates of unit order.
/// The result mirrors `atan2_spec` and lies within half a turn.
pub fn fx_atan2(y: i64, x: i64) -> (r: i64)
    requires
        sabs(y as int) <= 3_000_000,
        sabs(x as int) <= 3_000_000,
    ensures
        r as int == atan2_spec(y as int, x as int),
        sabs(r as int) <= PI_FX as int,
{
    if x == 0 && y == 0 {
        return 0;
    }
    let ax: i64 = if x < 0 {
        -x
    } else {
        x
    };
    let ay: i64 = if y < 0 {
        -y
    } else {
        y
    };
    let base: i64 = if ax >= ay {
        proof {
            lemma_ratio_in_unit(ay as int, ax as int);
        }
        atan_unit(fx_div(ay, ax))
    } else {
        proof {
            lemma_ratio_in_unit(ax as int, ay as int);
        }
        HALF_PI_FX - atan_unit(fx_div(ax, ay))
    };
    let ang: i64 = if x >= 0 {
        base
    } else {
        PI_FX - base
    };
    if y < 0 {
        -ang
    } else {
        ang
    }
}

/// A nonnegative numerator no larger than its positive denominator divides
/// into the unit interval, and the division is in range.
proof fn lemma_ratio_in_unit(q: int, d: int)
    requires
        0 <= q <= d,
        0 < d,
    ensures
        q * (SCALE as int) <= d * 0x7fff_ffff_ffff_ffff,
        0 <= fx_div_spec(q, d) <= SCALE as int,
{
    lemma_mul_upper_bound(q, d, SCALE as int, 0x7fff_ffff_ffff_ffff);
    lemma_sabs_mul(q, SCALE as int);
    assert(q * (SCALE as int) <= d * (SCALE as int)) by (nonlinear_arith)
        requires
            0 <= q <= d,
    ;
    lemma_div_bound(q * (SCALE as int), d, SCALE as int);
}

/// Arcsine of a fixed-point value in `[-1, 1]`, within half a turn.
pub fn fx_asin(y: i64) -> (r: i64)
    requires
        sabs(y as int) <= SCALE as int,
    ensures
        r as int == asin_spec(y as int),
        sabs(r as int) <= PI_FX as int,
{
    proof {
        lemma_abs_sq_le(y as int);
        lemma_div_bound(y as int * y as int, SCALE as int, SCALE as int);
    }
    let yy: i64 = fx_mul(y, y);
    let c: i64 = fx_sqrt(SCALE - yy);
    proof {
        lemma_sqrt_floor_bounds(((SCALE - yy as int) * (SCALE as int)) as nat);
        assert(c as int <= 3_000_000) by (nonlinear_arith)
            requires
                (c as int) * (c as int) <= (SCALE - yy as int) * (SCALE as int),
                0 <= (SCALE - yy as int) <= SCALE as int,
                c >= 0,
        ;
    }
    fx_atan2(y, c)
}

/// The square of a unit-order value is nonnegative, at most `SCALE * SCALE`,
/// and its scaled form is at most `SCALE`.
proof fn lemma_abs_sq_le(y: int)
    requires
        sabs(y) <= SCALE as int,
    ensures
        0 <= y * y <= (SCALE as int) * (SCALE as int),
        y * y <= 0x7fff_ffff_ffff_ffff * 1_000_000,
        sabs(y) * sabs(y) <= 0x7fff_ffff_ffff_ffff * 1_000_000,
        0 <= fx_mul_spec(y, y) <= SCALE as int,
{
    assert(0 <= y * y <= (SCALE as int) * (SCALE as int) && sabs(y) * sabs(y) <= (SCALE as int) * (
    SCALE as int)) by (nonlinear_arith)
        requires
            sabs(y) <= SCALE as int,
    ;
    lemma_div_bound(y * y, SCALE as int, SCALE as int);
}

} // verus!
