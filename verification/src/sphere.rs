//! Spheres and their ray intersection.
//!
//! The intersection solves the quadratic `|O + tD - C|^2 = r^2` in wide
//! integers: a positive discriminant and a positive smaller root make a hit,
//! anything else is a miss.  The executable query is proved equal to
//! `ray_intersect_spec`, its specification-level mirror.

use vstd::prelude::*;
use crate::fixed::{SCALE, sabs, tdiv, fx_div_spec, fx_clamp_spec, sqrt_floor, fx_clamp, fx_div,
    div_i128, isqrt_u128, lemma_sqrt_floor_bounds, lemma_sabs_mul, lemma_div_bound};
use crate::material::Material;
use crate::ray_intersect::{Intersect, empty_spec, in_world, inside_world, ORIGIN_MAX, T_MAX,
    MIN_DIR_DOT};
use crate::trig::{PI_FX, TWO_PI_FX, atan2_spec, asin_spec, fx_atan2, fx_asin};
use crate::vec3::{Vec3, V3, bounded, dot_spec, norm_spec, normalize_spec, v3_add_spec,
    v3_sub_spec, v3_scale_spec, lemma_dot_bound, lemma_abs_mul_bound};

verus! {

/// Half of one unit: the fixed-point value of `0.5`.
pub const HALF_SCALE: i64 = 500_000;

/// Texture coordinates of a point of the unit sphere: the azimuth becomes
/// `u`, the elevation becomes `v`, both clamped into `[0, 1]`.
pub open spec fn uv_of_unit_spec(r: V3) -> (int, int) {
    let theta = atan2_spec(r.z, r.x);
    let phi = asin_spec(r.y);
    (
        fx_clamp_spec(HALF_SCALE + fx_div_spec(theta, TWO_PI_FX as int), 0, SCALE as int),
        fx_clamp_spec(HALF_SCALE - fx_div_spec(phi, PI_FX as int), 0, SCALE as int),
    )
}

/// A sphere: a center, a fixed-point radius and a shared material.
#[derive(Clone, Copy)]
pub struct Sphere {
    pub center: Vec3,
    pub radius: i64,
    pub material: Material,
}

impl Sphere {
    /// A sphere is well-formed when it lies inside the scene volume, its
    /// radius is positive and at most a thousand units, and its material is
    /// well-formed.
    pub open spec fn wf(&self) -> bool {
        &&& bounded(self.center@, 1_000_000_000)
        &&& 0 < self.radius <= 1_000_000_000
        &&& self.material.wf()
    }

    /// Build a sphere.
    pub fn new(center: Vec3, radius: i64, material: Material) -> (s: Sphere)
        requires
            bounded(center@, 1_000_000_000),
            0 < radius <= 1_000_000_000,
            material.wf(),
        ensures
            s == (Sphere { center, radius, material }),
            s.wf(),
    {
        Sphere { center, radius, material }
    }

    /// Texture coordinates of a surface point: the point is taken relative
    /// to the center, normalized, and converted to spherical angles; a point
    /// at the center answers with the origin of texture space.
    pub open spec fn get_uv_spec(&self, point: Vec3) -> (int, int) {
        let d = v3_sub_spec(point@, self.center@);
        if norm_spec(d) > 0 {
            uv_of_unit_spec(normalize_spec(d))
        } else {
            (0, 0)
        }
    }

    /// Texture coordinates of a surface point, each in `[0, 1]`.
    pub fn get_uv(&self, point: &Vec3) -> (r: (i64, i64))
        requires
            self.wf(),
            bounded(point@, 100_000_000_000),
        ensures
            r.0 as int == self.get_uv_spec(*point).0,
            r.1 as int == self.get_uv_spec(*point).1,
            0 <= r.0 <= SCALE,
            0 <= r.1 <= SCALE,
    {
        let d = point.sub(&self.center);
        let m = d.magnitude();
        if m == 0 {
            (0, 0)
        } else {
            let n = d.normalize();
            let theta = fx_atan2(n.z, n.x);
            let phi = fx_asin(n.y);
            proof {
                lemma_sabs_mul(theta as int, SCALE as int);
                lemma_sabs_mul(phi as int, SCALE as int);
                lemma_div_bound(sabs(theta as int) * (SCALE as int), TWO_PI_FX as int, PI_FX as int);
                lemma_div_bound(sabs(phi as int) * (SCALE as int), PI_FX as int, 2 * PI_FX as int);
            }
            let u = fx_clamp(HALF_SCALE + fx_div(theta, TWO_PI_FX), 0, SCALE);
            let v = fx_clamp(HALF_SCALE - fx_div(phi, PI_FX), 0, SCALE);
            (u, v)
        }
    }

    /// The record the intersection query answers for a ray: a hit with the
    /// smaller positive root of the quadratic, the surface point, the
    /// outward unit normal and the texture coordinates — or a miss when the
    /// discriminant or the root is not positive, the ray direction is
    /// degenerate, or the hit falls outside the supported world volume.
    #[verifier::opaque]
    pub open spec fn ray_intersect_spec(&self, o: Vec3, d: Vec3) -> Intersect {
        let a2 = dot_spec(d@, d@);
        if a2 < MIN_DIR_DOT {
            empty_spec()
        } else {
            let oc = v3_sub_spec(o@, self.center@);
            let b2 = 2 * dot_spec(oc, d@);
            let c2 = dot_spec(oc, oc) - (self.radius as int) * (self.radius as int);
            let disc = b2 * b2 - 4 * a2 * c2;
            if disc > 0 {
                let sq = sqrt_floor(disc as nat) as int;
                let t = tdiv((-b2 - sq) * (SCALE as int), 2 * a2);
                if 0 < t <= T_MAX {
                    let point = v3_add_spec(o@, v3_scale_spec(d@, t));
                    if in_world(point) {
                        let pc = v3_sub_spec(point, self.center@);
                        if norm_spec(pc) > 0 {
                            let normal = normalize_spec(pc);
                            let uv = uv_of_unit_spec(normal);
                            Intersect {
                                point: Vec3 {
                                    x: point.x as i64,
                                    y: point.y as i64,
                                    z: point.z as i64,
                                },
                                normal: Vec3 {
                                    x: normal.x as i64,
                                    y: normal.y as i64,
                                    z: normal.z as i64,
                                },
                                distance: t as i64,
                                is_intersecting: true,
                                material: self.material,
                                u: uv.0 as i64,
                                v: uv.1 as i64,
                            }
                        } else {
                            empty_spec()
                        }
                    } else {
                        empty_spec()
                    }
                } else {
                    empty_spec()
                }
            } else {
                empty_spec()
            }
        }
    }

    /// Intersect a ray with the sphere.  The direction is expected to be of
    /// unit order, as `basis_change` and `normalize` produce it.
    pub fn ray_intersect(&self, ray_origin: &Vec3, ray_direction: &Vec3) -> (r: Intersect)
        requires
            self.wf(),
            bounded(ray_origin@, ORIGIN_MAX as int),
            bounded(ray_direction@, 3_000_000),
        ensures
            r == self.ray_intersect_spec(*ray_origin, *ray_direction),
            r.material.wf(),
            r.is_intersecting ==> in_world(r.point@) && bounded(r.normal@, SCALE as int) && 0
                < r.distance <= T_MAX,
    {
        proof {
            reveal(Sphere::ray_intersect_spec);
        }
        let a2: i128 = ray_direction.dot_raw(ray_direction);
        proof {
            lemma_dot_bound(ray_direction@, ray_direction@, 3_000_000, 3_000_000);
        }
        if a2 < MIN_DIR_DOT as i128 {
            return Intersect::empty();
        }
        let oc = ray_origin.sub(&self.center);
        let ocd: i128 = oc.dot_raw(ray_direction);
        proof {
            lemma_dot_bound(oc@, ray_direction@, 21_000_000_000, 3_000_000);
            lemma_dot_bound(oc@, oc@, 21_000_000_000, 21_000_000_000);
            lemma_abs_mul_bound(
                self.radius as int,
                self.radius as int,
                1_000_000_000,
                1_000_000_000,
            );
        }
        let b2: i128 = 2 * ocd;
        let cdot: i128 = oc.dot_raw(&oc);
        let c2: i128 = cdot - (self.radius as i128) * (self.radius as i128);
        proof {
            lemma_abs_mul_bound(b2 as int, b2 as int, 378_000_000_000_000_000, 378_000_000_000_000_000);
            lemma_abs_mul_bound(
                4 * (a2 as int),
                c2 as int,
                108_000_000_000_000,
                1_324_000_000_000_000_000_000,
            );
            assert((4 * (a2 as int)) * (c2 as int) == 4 * ((a2 as int) * (c2 as int)))
                by (nonlinear_arith);
        }
        let disc: i128 = b2 * b2 - 4 * a2 * c2;
        if disc > 0 {
            let sq: u128 = isqrt_u128(disc as u128);
            proof {
                lemma_sqrt_floor_bounds(disc as nat);
                assert(sq as int <= 600_000_000_000_000_000) by (nonlinear_arith)
                    requires
                        (sq as int) * (sq as int) <= disc as int,
                        disc as int <= 300_000_000_000_000_000_000_000_000_000_000_000,
                ;
            }
            let num: i128 = (-b2 - sq as i128) * 1_000_000;
            let t128: i128 = div_i128(num, 2 * a2);
            if t128 > 0 && t128 <= T_MAX as i128 {
                let t: i64 = t128 as i64;
                let scaled = ray_direction.scale(t);
                let point = ray_origin.add(&scaled);
                if inside_world(&point) {
                    let pc = point.sub(&self.center);
                    let m = pc.magnitude();
                    if m > 0 {
                        let normal = pc.normalize();
                        let uv = self.get_uv(&point);
                        return Intersect::new(point, normal, t, self.material, uv.0, uv.1);
                    }
                }
            }
            Intersect::empty()
        } else {
            Intersect::empty()
        }
    }
}

} // verus!
