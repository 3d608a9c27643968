//! Fixed-point scalar arithmetic.
//!
//! Every scalar quantity of the ray tracer (coordinates, distances, shading
//! weights) is a signed 64-bit count of millionths of a unit.  The helpers
//! here perform the scaled multiplication, division, square root and power
//! used throughout the geometry and shading code, each one proved equal to a
//! specification-level counterpart written over `int`.

use vstd::prelude::*;
use vstd::arithmetic::div_mod::{lemma_div_is_ordered, lemma_div_multiples_vanish, lemma_div_nonincreasing};
use vstd::arithmetic::mul::lemma_mul_upper_bound;

verus! {

/// Raw ticks in one unit: all scalars are fixed-point `i64` values counting
/// millionths of a unit.
pub const SCALE: i64 = 1_000_000;

/// Magnitude of an integer.
pub open spec fn sabs(a: int) -> int {
    if a < 0 {
        -a
    } else {
        a
    }
}

/// Truncating (round-toward-zero) division, the semantics of `/` on Rust's
/// signed integers, written over magnitudes so that only division of
/// nonnegative integers appears.
pub open spec fn tdiv(n: int, d: int) -> int
    recommends
        d != 0,
{
    if (n < 0) == (d < 0) {
        sabs(n) / sabs(d)
    } else {
        -(sabs(n) / sabs(d))
    }
}

/// Truncating remainder, the semantics of `%` on Rust's signed integers.
pub open spec fn tmod_spec(n: int, d: int) -> int
    recommends
        d != 0,
{
    n - tdiv(n, d) * d
}

/// Product of two fixed-point scalars, truncated toward zero.
pub open spec fn fx_mul_spec(a: int, b: int) -> int {
    tdiv(a * b, SCALE as int)
}

/// Quotient of two fixed-point scalars, truncated toward zero.
pub open spec fn fx_div_spec(a: int, b: int) -> int
    recommends
        b != 0,
{
    tdiv(a * (SCALE as int), b)
}

/// Integer square root, rounded down.
pub open spec fn sqrt_floor(n: nat) -> nat
    decreases n,
{
    if n == 0 {
        0
    } else {
        let r = sqrt_floor((n - 1) as nat);
        if (r + 1) * (r + 1) <= n {
            r + 1
        } else {
            r
        }
    }
}

/// Square root of a nonnegative fixed-point scalar, rounded down.
pub open spec fn fx_sqrt_spec(a: int) -> int
    recommends
        a >= 0,
{
    sqrt_floor((a * (SCALE as int)) as nat) as int
}

/// `sqrt_floor(n)` really is the square root of `n` rounded down.
pub proof fn lemma_sqrt_floor_bounds(n: nat)
    ensures
        sqrt_floor(n) * sqrt_floor(n) <= n,
        n < (sqrt_floor(n) + 1) * (sqrt_floor(n) + 1),
    decreases n,
{
    let s = sqrt_floor(n);
    if n == 0 {
        assert(s == 0);
        assert(s * s <= n && n < (s + 1) * (s + 1)) by (nonlinear_arith)
            requires
                s == 0,
                n == 0,
        ;
    } else {
        lemma_sqrt_floor_bounds((n - 1) as nat);
        let r = sqrt_floor((n - 1) as nat);
        if (r + 1) * (r + 1) <= n {
            assert(s == r + 1);
            assert(s * s <= n && n < (s + 1) * (s + 1)) by (nonlinear_arith)
                requires
                    s == r + 1,
                    (r + 1) * (r + 1) <= n,
                    n - 1 < (r + 1) * (r + 1),
            ;
        } else {
            assert(s == r);
            assert(s * s <= n && n < (s + 1) * (s + 1)) by (nonlinear_arith)
                requires
                    s == r,
                    r * r <= n - 1,
                    !((r + 1) * (r + 1) <= n),
            ;
        }
    }
}

/// Any integer bracketed by the square-root property equals `sqrt_floor`.
pub proof fn lemma_sqrt_floor_unique(n: nat, r: nat)
    requires
        r * r <= n,
        n < (r + 1) * (r + 1),
    ensures
        r == sqrt_floor(n),
{
    lemma_sqrt_floor_bounds(n);
    let s = sqrt_floor(n);
    if r < s {
        assert((r + 1) * (r + 1) <= s * s) by (nonlinear_arith)
            requires
                r + 1 <= s,
        ;
    }
    if s < r {
        assert((s + 1) * (s + 1) <= r * r) by (nonlinear_arith)
            requires
                s + 1 <= r,
        ;
    }
}

/// A quotient of a bounded numerator is bounded: `n <= d * k ==> n / d <= k`.
pub proof fn lemma_div_bound(n: int, d: int, k: int)
    requires
        0 < d,
        0 <= n,
        0 <= k,
        n <= d * k,
    ensures
        n / d <= k,
{
    lemma_div_is_ordered(n, d * k, d);
    lemma_div_multiples_vanish(k, d);
}

/// The scaled quotient of a division by `SCALE` lands within one tick of the
/// dividend, and its magnitude never exceeds the dividend's: the two facts
/// that bound every fixed-point rounding error.
pub proof fn lemma_tdiv_near(n: int)
    ensures
        sabs((SCALE as int) * tdiv(n, SCALE as int) - n) < SCALE as int,
        sabs(tdiv(n, SCALE as int)) * (SCALE as int) <= sabs(n),
{
    let s = SCALE as int;
    let m = sabs(n);
    vstd::arithmetic::div_mod::lemma_fundamental_div_mod(m, s);
    vstd::arithmetic::div_mod::lemma_mod_division_less_than_divisor(m, s);
    vstd::arithmetic::mul::lemma_mul_is_commutative(m / s, s);
    if n >= 0 {
        assert(tdiv(n, s) == m / s);
    } else {
        assert(tdiv(n, s) == -(m / s));
    }
}

/// Truncating division on `i128`, computed over magnitudes.
pub fn div_i128(n: i128, d: i128) -> (r: i128)
    requires
        d != 0,
        n != i128::MIN,
        d != i128::MIN,
    ensures
        r as int == tdiv(n as int, d as int),
{
    let na: u128 = if n < 0 {
        (-n) as u128
    } else {
        n as u128
    };
    let da: u128 = if d < 0 {
        (-d) as u128
    } else {
        d as u128
    };
    let q: u128 = na / da;
    proof {
        assert(na as int == sabs(n as int));
        assert(da as int == sabs(d as int));
        lemma_div_nonincreasing(na as int, da as int);
    }
    if (n < 0) != (d < 0) {
        -(q as i128)
    } else {
        q as i128
    }
}

/// Fixed-point multiplication: `a * b / SCALE`, truncated toward zero.
pub fn fx_mul(a: i64, b: i64) -> (r: i64)
    requires
        sabs(a as int) * sabs(b as int) <= 0x7fff_ffff_ffff_ffff * 1_000_000,
    ensures
        r as int == fx_mul_spec(a as int, b as int),
{
    proof {
        lemma_mul_upper_bound(sabs(a as int), 0x8000_0000_0000_0000, sabs(b as int), 0x8000_0000_0000_0000);
        lemma_sabs_mul(a as int, b as int);
    }
    let p: i128 = (a as i128) * (b as i128);
    let q: i128 = div_i128(p, 1_000_000);
    proof {
        lemma_div_bound(sabs(p as int), 1_000_000, 0x7fff_ffff_ffff_ffff);
    }
    q as i64
}

/// The magnitude of a product is the product of the magnitudes.
pub proof fn lemma_sabs_mul(a: int, b: int)
    ensures
        sabs(a * b) == sabs(a) * sabs(b),
{
    assert(sabs(a * b) == sabs(a) * sabs(b)) by (nonlinear_arith);
}

/// Fixed-point division: `a * SCALE / b`, truncated toward zero.
pub fn fx_div(a: i64, b: i64) -> (r: i64)
    requires
        b != 0,
        sabs(a as int) * 1_000_000 <= sabs(b as int) * 0x7fff_ffff_ffff_ffff,
    ensures
        r as int == fx_div_spec(a as int, b as int),
{
    let p: i128 = (a as i128) * 1_000_000;
    let q: i128 = div_i128(p, b as i128);
    proof {
        lemma_sabs_mul(a as int, 1_000_000);
        lemma_div_bound(sabs(p as int), sabs(b as int), 0x7fff_ffff_ffff_ffff);
    }
    q as i64
}

/// Integer square root on `u128` by binary search.
pub fn isqrt_u128(n: u128) -> (r: u128)
    requires
        n < 0x4000_0000_0000_0000_0000_0000_0000_0000,
    ensures
        r as nat == sqrt_floor(n as nat),
{
    let mut lo: u128 = 0;
    let mut hi: u128 = 0x8000_0000_0000_0000;
    proof {
        assert((0x8000_0000_0000_0000 as int) * (0x8000_0000_0000_0000 as int)
            == 0x4000_0000_0000_0000_0000_0000_0000_0000) by (nonlinear_arith);
    }
    while lo + 1 < hi
        invariant
            lo < hi,
            hi <= 0x8000_0000_0000_0000,
            (lo as int) * (lo as int) <= n as int,
            (n as int) < (hi as int) * (hi as int),
        decreases hi - lo,
    {
        let mid: u128 = lo + (hi - lo) / 2;
        proof {
            assert((mid as int) * (mid as int) < 0x8000_0000_0000_0000_0000_0000_0000_0000)
                by (nonlinear_arith)
                requires
                    mid < 0x8000_0000_0000_0000u128,
            ;
        }
        if mid * mid <= n {
            lo = mid;
        } else {
            hi = mid;
        }
    }
    proof {
        lemma_sqrt_floor_unique(n as nat, lo as nat);
    }
    lo
}

/// Square root of a nonnegative fixed-point scalar: `sqrt(a / SCALE) * SCALE`,
/// rounded down.
pub fn fx_sqrt(a: i64) -> (r: i64)
    requires
        a >= 0,
    ensures
        r as int == fx_sqrt_spec(a as int),
        r >= 0,
{
    let n: u128 = (a as u128) * 1_000_000;
    let s: u128 = isqrt_u128(n);
    proof {
        lemma_sqrt_floor_bounds(n as nat);
        assert(s as int <= 0x7fff_ffff_ffff_ffff) by (nonlinear_arith)
            requires
                (s as int) * (s as int) <= n as int,
                n as int <= 0x7fff_ffff_ffff_ffff * 1_000_000,
        ;
    }
    s as i64
}

/// Fixed-point power with a machine-integer exponent: repeated truncating
/// multiplication of a base in `[0, SCALE]`.
pub open spec fn fx_pow_spec(b: int, e: nat) -> int
    decreases e,
{
    if e == 0 {
        SCALE as int
    } else {
        fx_mul_spec(b, fx_pow_spec(b, (e - 1) as nat))
    }
}

/// A truncating product of factors in `[0, SCALE]` stays in `[0, SCALE]`.
pub proof fn lemma_fx_mul_unit_range(a: int, b: int)
    requires
        0 <= a <= SCALE as int,
        0 <= b <= SCALE as int,
    ensures
        0 <= fx_mul_spec(a, b) <= SCALE as int,
        a * b <= 0x7fff_ffff_ffff_ffff * 1_000_000,
{
    lemma_mul_upper_bound(a, SCALE as int, b, SCALE as int);
    lemma_div_bound(a * b, SCALE as int, SCALE as int);
}

/// `fx_pow_spec` of a base in `[0, SCALE]` stays in `[0, SCALE]`.
pub proof fn lemma_fx_pow_unit_range(b: int, e: nat)
    requires
        0 <= b <= SCALE as int,
    ensures
        0 <= fx_pow_spec(b, e) <= SCALE as int,
    decreases e,
{
    if e > 0 {
        lemma_fx_pow_unit_range(b, (e - 1) as nat);
        lemma_fx_mul_unit_range(b, fx_pow_spec(b, (e - 1) as nat));
    }
}

/// Raise a fixed-point scalar in `[0, SCALE]` to a machine-integer power.
pub fn fx_pow(b: i64, e: u32) -> (r: i64)
    requires
        0 <= b <= SCALE,
    ensures
        r as int == fx_pow_spec(b as int, e as nat),
        0 <= r <= SCALE,
{
    let mut acc: i64 = SCALE;
    let mut i: u32 = 0;
    while i < e
        invariant
            0 <= b <= SCALE,
            i <= e,
            acc as int == fx_pow_spec(b as int, i as nat),
            0 <= acc <= SCALE,
        decreases e - i,
    {
        proof {
            lemma_fx_mul_unit_range(b as int, acc as int);
        }
        acc = fx_mul(b, acc);
        i = i + 1;
    }
    acc
}

/// Clamp a fixed-point scalar into a closed interval.
pub fn fx_clamp(a: i64, lo: i64, hi: i64) -> (r: i64)
    requires
        lo <= hi,
    ensures
        r as int == fx_clamp_spec(a as int, lo as int, hi as int),
{
    if a < lo {
        lo
    } else if a > hi {
        hi
    } else {
        a
    }
}

/// Specification of clamping into `[lo, hi]`.
pub open spec fn fx_clamp_spec(a: int, lo: int, hi: int) -> int {
    if a < lo {
        lo
    } else if a > hi {
        hi
    } else {
        a
    }
}

} // verus!
