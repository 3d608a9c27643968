//! Three-component fixed-point vectors.
//!
//! Positions, directions, normals and color intermediates are triples of
//! fixed-point scalars.  The view of a vector is a triple of unbounded
//! integers (`V3`), and every executable operation is proved equal to a
//! specification-level counterpart over that view.

use vstd::prelude::*;
use crate::fixed::{SCALE, sabs, tdiv, fx_mul_spec, fx_div_spec, sqrt_floor, fx_mul, fx_div,
    lemma_sabs_mul, lemma_div_bound};
use vstd::arithmetic::mul::lemma_mul_upper_bound;

verus! {

/// A vector of three fixed-point scalars (each `SCALE` raw ticks per unit).
#[derive(Clone, Copy, Debug, PartialEq, Eq, Structural)]
pub struct Vec3 {
    pub x: i64,
    pub y: i64,
    pub z: i64,
}

/// The mathematical value of a `Vec3`: a triple of unbounded integers.
pub struct V3 {
    pub x: int,
    pub y: int,
    pub z: int,
}

impl View for Vec3 {
    type V = V3;

    open spec fn view(&self) -> V3 {
        V3 { x: self.x as int, y: self.y as int, z: self.z as int }
    }
}

/// The `Vec3` a triple of in-range integers denotes.
pub open spec fn vec3_of(v: V3) -> Vec3 {
    Vec3 { x: v.x as i64, y: v.y as i64, z: v.z as i64 }
}

/// Every component has magnitude at most `m`.
pub open spec fn bounded(v: V3, m: int) -> bool {
    sabs(v.x) <= m && sabs(v.y) <= m && sabs(v.z) <= m
}

pub open spec fn v3_add_spec(a: V3, b: V3) -> V3 {
    V3 { x: a.x + b.x, y: a.y + b.y, z: a.z + b.z }
}

pub open spec fn v3_sub_spec(a: V3, b: V3) -> V3 {
    V3 { x: a.x - b.x, y: a.y - b.y, z: a.z - b.z }
}

pub open spec fn v3_neg_spec(a: V3) -> V3 {
    V3 { x: -a.x, y: -a.y, z: -a.z }
}

/// Scale a vector by a fixed-point scalar, truncating each component.
pub open spec fn v3_scale_spec(v: V3, t: int) -> V3 {
    V3 { x: fx_mul_spec(v.x, t), y: fx_mul_spec(v.y, t), z: fx_mul_spec(v.z, t) }
}

/// Unscaled dot product: the sum of the raw component products, so the result
/// of unit-scale operands carries `SCALE * SCALE` ticks per square unit.
pub open spec fn dot_spec(a: V3, b: V3) -> int {
    a.x * b.x + a.y * b.y + a.z * b.z
}

/// Dot product of two fixed-point vectors as a fixed-point scalar.
pub open spec fn dot_fx_spec(a: V3, b: V3) -> int {
    tdiv(dot_spec(a, b), SCALE as int)
}

/// Cross product of two fixed-point vectors.
pub open spec fn cross_spec(a: V3, b: V3) -> V3 {
    V3 {
        x: fx_mul_spec(a.y, b.z) - fx_mul_spec(a.z, b.y),
        y: fx_mul_spec(a.z, b.x) - fx_mul_spec(a.x, b.z),
        z: fx_mul_spec(a.x, b.y) - fx_mul_spec(a.y, b.x),
    }
}

/// Euclidean length of a fixed-point vector, rounded down: the square root of
/// the unscaled self-dot is again a fixed-point scalar.
pub open spec fn norm_spec(v: V3) -> int {
    sqrt_floor(dot_spec(v, v) as nat) as int
}

/// Normalization: each component divided by the length.
pub open spec fn normalize_spec(v: V3) -> V3 {
    let m = norm_spec(v);
    V3 { x: fx_div_spec(v.x, m), y: fx_div_spec(v.y, m), z: fx_div_spec(v.z, m) }
}

/// The magnitude of a product is bounded by the product of the bounds.
pub proof fn lemma_abs_mul_bound(a: int, b: int, ma: int, mb: int)
    requires
        sabs(a) <= ma,
        sabs(b) <= mb,
    ensures
        sabs(a * b) <= ma * mb,
        sabs(a) * sabs(b) <= ma * mb,
{
    lemma_sabs_mul(a, b);
    lemma_mul_upper_bound(sabs(a), ma, sabs(b), mb);
}

/// A dot product of bounded vectors is bounded.
pub proof fn lemma_dot_bound(a: V3, b: V3, ma: int, mb: int)
    requires
        bounded(a, ma),
        bounded(b, mb),
    ensures
        sabs(dot_spec(a, b)) <= 3 * (ma * mb),
{
    lemma_abs_mul_bound(a.x, b.x, ma, mb);
    lemma_abs_mul_bound(a.y, b.y, ma, mb);
    lemma_abs_mul_bound(a.z, b.z, ma, mb);
}

/// A vector's self-dot is nonnegative.
pub proof fn lemma_dot_self_nonneg(v: V3)
    ensures
        dot_spec(v, v) >= 0,
        v.x * v.x <= dot_spec(v, v),
        v.y * v.y <= dot_spec(v, v),
        v.z * v.z <= dot_spec(v, v),
{
    assert(v.x * v.x >= 0 && v.y * v.y >= 0 && v.z * v.z >= 0) by (nonlinear_arith);
}

impl Vec3 {
    /// Build a vector from its three fixed-point components.
    pub fn new(x: i64, y: i64, z: i64) -> (r: Vec3)
        ensures
            r@ == (V3 { x: x as int, y: y as int, z: z as int }),
    {
        Vec3 { x, y, z }
    }

    /// The zero vector.
    pub fn zeros() -> (r: Vec3)
        ensures
            r@ == (V3 { x: 0, y: 0, z: 0 }),
    {
        Vec3 { x: 0, y: 0, z: 0 }
    }

    /// Component-wise sum.
    pub fn add(&self, other: &Vec3) -> (r: Vec3)
        requires
            bounded(self@, 0x3fff_ffff_ffff_ffff),
            bounded(other@, 0x3fff_ffff_ffff_ffff),
        ensures
            r@ == v3_add_spec(self@, other@),
    {
        Vec3 { x: self.x + other.x, y: self.y + other.y, z: self.z + other.z }
    }

    /// Component-wise difference.
    pub fn sub(&self, other: &Vec3) -> (r: Vec3)
        requires
            bounded(self@, 0x3fff_ffff_ffff_ffff),
            bounded(other@, 0x3fff_ffff_ffff_ffff),
        ensures
            r@ == v3_sub_spec(self@, other@),
    {
        Vec3 { x: self.x - other.x, y: self.y - other.y, z: self.z - other.z }
    }

    /// Component-wise negation.
    pub fn neg(&self) -> (r: Vec3)
        requires
            bounded(self@, 0x7fff_ffff_ffff_fffe),
        ensures
            r@ == v3_neg_spec(self@),
    {
        Vec3 { x: -self.x, y: -self.y, z: -self.z }
    }

    /// Scale by a fixed-point scalar.  The vector is expected to be of unit
    /// order (directions, normals); the scalar may be as large as a scene
    /// distance.
    pub fn scale(&self, t: i64) -> (r: Vec3)
        requires
            bounded(self@, 3_000_000),
            sabs(t as int) <= 3_000_000_000_000,
        ensures
            r@ == v3_scale_spec(self@, t as int),
            bounded(r@, 9_000_000_000_000),
    {
        proof {
            lemma_abs_mul_bound(self.x as int, t as int, 3_000_000, 3_000_000_000_000);
            lemma_abs_mul_bound(self.y as int, t as int, 3_000_000, 3_000_000_000_000);
            lemma_abs_mul_bound(self.z as int, t as int, 3_000_000, 3_000_000_000_000);
            lemma_div_bound(sabs(self.x as int * t as int), SCALE as int, 9_000_000_000_000);
            lemma_div_bound(sabs(self.y as int * t as int), SCALE as int, 9_000_000_000_000);
            lemma_div_bound(sabs(self.z as int * t as int), SCALE as int, 9_000_000_000_000);
        }
        Vec3 { x: fx_mul(self.x, t), y: fx_mul(self.y, t), z: fx_mul(self.z, t) }
    }

    /// Unscaled dot product in a 128-bit intermediate.
    pub fn dot_raw(&self, other: &Vec3) -> (r: i128)
        requires
            bounded(self@, 3_000_000_000_000_000),
            bounded(other@, 3_000_000_000_000_000),
        ensures
            r as int == dot_spec(self@, other@),
    {
        proof {
            lemma_dot_bound(self@, other@, 3_000_000_000_000_000, 3_000_000_000_000_000);
            lemma_abs_mul_bound(self.x as int, other.x as int, 3_000_000_000_000_000, 3_000_000_000_000_000);
            lemma_abs_mul_bound(self.y as int, other.y as int, 3_000_000_000_000_000, 3_000_000_000_000_000);
            lemma_abs_mul_bound(self.z as int, other.z as int, 3_000_000_000_000_000, 3_000_000_000_000_000);
        }
        (self.x as i128) * (other.x as i128) + (self.y as i128) * (other.y as i128)
            + (self.z as i128) * (other.z as i128)
    }

    /// Dot product as a fixed-point scalar, truncated toward zero.
    pub fn dot(&self, other: &Vec3) -> (r: i64)
        requires
            bounded(self@, 3_000_000_000),
            bounded(other@, 3_000_000_000),
        ensures
            r as int == dot_fx_spec(self@, other@),
            sabs(r as int) <= 27_000_000_000_000,
    {
        let d: i128 = self.dot_raw(other);
        proof {
            lemma_dot_bound(self@, other@, 3_000_000_000, 3_000_000_000);
            lemma_div_bound(sabs(d as int), SCALE as int, 27_000_000_000_000);
        }
        let q: i128 = crate::fixed::div_i128(d, 1_000_000);
        q as i64
    }

    /// Cross product of two unit-order vectors.
    pub fn cross(&self, other: &Vec3) -> (r: Vec3)
        requires
            bounded(self@, 3_000_000),
            bounded(other@, 3_000_000),
        ensures
            r@ == cross_spec(self@, other@),
            bounded(r@, 18_000_000),
    {
        proof {
            lemma_cross_products_bounded(self@, other@);
        }
        Vec3 {
            x: fx_mul(self.y, other.z) - fx_mul(self.z, other.y),
            y: fx_mul(self.z, other.x) - fx_mul(self.x, other.z),
            z: fx_mul(self.x, other.y) - fx_mul(self.y, other.x),
        }
    }

    /// Euclidean length, rounded down to a fixed-point scalar.
    pub fn magnitude(&self) -> (r: i64)
        requires
            bounded(self@, 3_000_000_000_000_000),
        ensures
            r as int == norm_spec(self@),
            r >= 0,
    {
        let d: i128 = self.dot_raw(self);
        proof {
            lemma_dot_self_nonneg(self@);
            lemma_dot_bound(self@, self@, 3_000_000_000_000_000, 3_000_000_000_000_000);
        }
        let s: u128 = crate::fixed::isqrt_u128(d as u128);
        proof {
            crate::fixed::lemma_sqrt_floor_bounds(d as nat);
            assert(s as int <= 0x7fff_ffff_ffff_ffff) by (nonlinear_arith)
                requires
                    (s as int) * (s as int) <= d as int,
                    d as int <= 27_000_000_000_000_000_000_000_000_000_000,
            ;
        }
        s as i64
    }

    /// Normalize to a unit-order vector: each component is divided by the
    /// length, so every component of the result is at most `SCALE` in
    /// magnitude.
    pub fn normalize(&self) -> (r: Vec3)
        requires
            bounded(self@, 3_000_000_000_000_000),
            norm_spec(self@) > 0,
        ensures
            r@ == normalize_spec(self@),
            bounded(r@, SCALE as int),
    {
        let m: i64 = self.magnitude();
        proof {
            lemma_components_le_norm(self@);
            lemma_div_component(self.x as int, m as int);
            lemma_div_component(self.y as int, m as int);
            lemma_div_component(self.z as int, m as int);
        }
        Vec3 { x: fx_div(self.x, m), y: fx_div(self.y, m), z: fx_div(self.z, m) }
    }
}

/// Each component of a vector is bounded in magnitude by the vector's length.
pub proof fn lemma_components_le_norm(v: V3)
    ensures
        sabs(v.x) <= norm_spec(v),
        sabs(v.y) <= norm_spec(v),
        sabs(v.z) <= norm_spec(v),
{
    lemma_dot_self_nonneg(v);
    let n = dot_spec(v, v) as nat;
    crate::fixed::lemma_sqrt_floor_bounds(n);
    let m = sqrt_floor(n);
    assert(sabs(v.x) <= m && sabs(v.y) <= m && sabs(v.z) <= m) by (nonlinear_arith)
        requires
            v.x * v.x <= n,
            v.y * v.y <= n,
            v.z * v.z <= n,
            n < (m + 1) * (m + 1),
            m >= 0,
    ;
}

/// Dividing a component by a length that bounds it yields a unit-order
/// fixed-point scalar, and the division is in range for `fx_div`.
proof fn lemma_div_component(c: int, m: int)
    requires
        m > 0,
        sabs(c) <= m,
    ensures
        sabs(c) * (SCALE as int) <= sabs(m) * 0x7fff_ffff_ffff_ffff,
        sabs(fx_div_spec(c, m)) <= SCALE as int,
{
    lemma_mul_upper_bound(sabs(c), m, SCALE as int, 0x7fff_ffff_ffff_ffff);
    lemma_sabs_mul(c, SCALE as int);
    lemma_div_bound(sabs(c * (SCALE as int)), m, SCALE as int);
}

/// The six component products of a cross product of unit-order vectors stay
/// in range for `fx_mul`, and each result component is bounded.
proof fn lemma_cross_products_bounded(a: V3, b: V3)
    requires
        bounded(a, 3_000_000),
        bounded(b, 3_000_000),
    ensures
        sabs(a.y) * sabs(b.z) <= 0x7fff_ffff_ffff_ffff * 1_000_000,
        sabs(a.z) * sabs(b.y) <= 0x7fff_ffff_ffff_ffff * 1_000_000,
        sabs(a.z) * sabs(b.x) <= 0x7fff_ffff_ffff_ffff * 1_000_000,
        sabs(a.x) * sabs(b.z) <= 0x7fff_ffff_ffff_ffff * 1_000_000,
        sabs(a.x) * sabs(b.y) <= 0x7fff_ffff_ffff_ffff * 1_000_000,
        sabs(a.y) * sabs(b.x) <= 0x7fff_ffff_ffff_ffff * 1_000_000,
        sabs(fx_mul_spec(a.y, b.z) - fx_mul_spec(a.z, b.y)) <= 18_000_000,
        sabs(fx_mul_spec(a.z, b.x) - fx_mul_spec(a.x, b.z)) <= 18_000_000,
        sabs(fx_mul_spec(a.x, b.y) - fx_mul_spec(a.y, b.x)) <= 18_000_000,
{
    lemma_cross_component(a.y, b.z);
    lemma_cross_component(a.z, b.y);
    lemma_cross_component(a.z, b.x);
    lemma_cross_component(a.x, b.z);
    lemma_cross_component(a.x, b.y);
    lemma_cross_component(a.y, b.x);
}

/// One product of unit-order components is in range for `fx_mul` and the
/// scaled product is bounded by nine units.
proof fn lemma_cross_component(p: int, q: int)
    requires
        sabs(p) <= 3_000_000,
        sabs(q) <= 3_000_000,
    ensures
        sabs(p) * sabs(q) <= 0x7fff_ffff_ffff_ffff * 1_000_000,
        sabs(fx_mul_spec(p, q)) <= 9_000_000,
{
    lemma_mul_upper_bound(sabs(p), 3_000_000, sabs(q), 3_000_000);
    lemma_sabs_mul(p, q);
    lemma_div_bound(sabs(p * q), SCALE as int, 9_000_000);
}

} // verus!
