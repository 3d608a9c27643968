//! Axis-aligned cubes and their ray intersection.
//!
//! The intersection is the slab test: per axis an entry and an exit
//! parameter, a hit exactly when the latest entry precedes the earliest exit
//! in front of the origin.  A zero direction component makes the axis
//! unconstrained when the origin lies between the slabs and a sure miss
//! otherwise, standing in for the infinities of real-valued division.  When
//! the origin is inside the cube the exit is reported and the face normal is
//! flipped inward.  The corners derive from the center and the edge length on
//! demand, so moving a cube moves its faces with it.

use vstd::prelude::*;
use crate::fixed::{SCALE, sabs, fx_div_spec, fx_div};
use crate::material::Material;
use crate::ray_intersect::{Intersect, empty_spec, in_world, inside_world, ORIGIN_MAX, T_MAX};
use crate::vec3::{Vec3, V3, bounded, v3_add_spec, v3_sub_spec, v3_neg_spec, v3_scale_spec};

verus! {

/// The sentinel parameter value standing in for an infinite slab bound.
pub const T_INF: i64 = 0x7fff_ffff_ffff_ffff;

/// Tolerance of the face-normal test: a thousandth of a unit.
pub const NORMAL_EPS: i64 = 1_000;

/// The fixed-point sign of a coordinate, positive for zero.
pub open spec fn sgn_fx(v: int) -> int {
    if v >= 0 {
        SCALE as int
    } else {
        -SCALE as int
    }
}

/// Entry and exit parameters of one axis slab `[lo, hi]` for a ray
/// coordinate `o` moving at rate `d`.
pub open spec fn slab_spec(o: int, d: int, lo: int, hi: int) -> (int, int) {
    if d == 0 {
        if lo <= o <= hi {
            (-T_INF as int, T_INF as int)
        } else if o < lo {
            (T_INF as int, T_INF as int)
        } else {
            (-T_INF as int, -T_INF as int)
        }
    } else {
        let t1 = fx_div_spec(lo - o, d);
        let t2 = fx_div_spec(hi - o, d);
        if t1 <= t2 {
            (t1, t2)
        } else {
            (t2, t1)
        }
    }
}

/// An axis-aligned cube: a center, a fixed-point edge length and a shared
/// material.
#[derive(Clone, Copy)]
pub struct Cube {
    pub center: Vec3,
    pub size: i64,
    pub material: Material,
}

impl Cube {
    /// A cube is well-formed when it lies inside the scene volume, its edge
    /// measures between two ticks and a thousand units, and its material is
    /// well-formed.
    pub open spec fn wf(&self) -> bool {
        &&& bounded(self.center@, 1_000_000_000)
        &&& 2 <= self.size <= 1_000_000_000
        &&& self.material.wf()
    }

    /// Build a cube.
    pub fn new(center: Vec3, size: i64, material: Material) -> (c: Cube)
        requires
            bounded(center@, 1_000_000_000),
            2 <= size <= 1_000_000_000,
            material.wf(),
        ensures
            c == (Cube { center, size, material }),
            c.wf(),
    {
        Cube { center, size, material }
    }

    /// Half the edge length.
    pub open spec fn half_spec(&self) -> int {
        (self.size as int) / 2
    }

    /// The corner of least coordinates.
    pub open spec fn min_spec(&self) -> V3 {
        V3 {
            x: self.center@.x - self.half_spec(),
            y: self.center@.y - self.half_spec(),
            z: self.center@.z - self.half_spec(),
        }
    }

    /// The corner of greatest coordinates.
    pub open spec fn max_spec(&self) -> V3 {
        V3 {
            x: self.center@.x + self.half_spec(),
            y: self.center@.y + self.half_spec(),
            z: self.center@.z + self.half_spec(),
        }
    }

    /// The corner of least coordinates: the center less half the edge on
    /// every axis.
    pub fn min(&self) -> (r: Vec3)
        requires
            self.wf(),
        ensures
            r@ == self.min_spec(),
    {
        let h = self.size / 2;
        Vec3 { x: self.center.x - h, y: self.center.y - h, z: self.center.z - h }
    }

    /// The corner of greatest coordinates: the center plus half the edge on
    /// every axis.
    pub fn max(&self) -> (r: Vec3)
        requires
            self.wf(),
        ensures
            r@ == self.max_spec(),
    {
        let h = self.size / 2;
        Vec3 { x: self.center.x + h, y: self.center.y + h, z: self.center.z + h }
    }

    /// The cube's position: its center.
    pub fn position(&self) -> (r: Vec3)
        ensures
            r == self.center,
    {
        self.center
    }

    /// Move the cube: only the center changes, the corners follow.
    pub fn set_position(&mut self, new_position: Vec3)
        requires
            old(self).wf(),
            bounded(new_position@, 1_000_000_000),
        ensures
            final(self).center == new_position,
            final(self).size == old(self).size,
            final(self).material == old(self).material,
            final(self).wf(),
    {
        self.center = new_position;
    }

    /// The outward face normal the hit point selects: the axis whose offset
    /// from the center matches the half extent within the tolerance, signed
    /// by the side; no matching axis leaves the zero vector.
    pub open spec fn normal_spec(&self, point: V3) -> V3 {
        let ctp = v3_sub_spec(point, self.center@);
        let h = self.half_spec();
        if sabs(sabs(ctp.x) - h) < NORMAL_EPS {
            V3 { x: sgn_fx(ctp.x), y: 0, z: 0 }
        } else if sabs(sabs(ctp.y) - h) < NORMAL_EPS {
            V3 { x: 0, y: sgn_fx(ctp.y), z: 0 }
        } else if sabs(sabs(ctp.z) - h) < NORMAL_EPS {
            V3 { x: 0, y: 0, z: sgn_fx(ctp.z) }
        } else {
            V3 { x: 0, y: 0, z: 0 }
        }
    }

    /// Texture coordinates of a hit point under a face normal: each face
    /// maps the two tangent coordinates linearly into `[0, 1]`, mirrored on
    /// the faces that need it to keep the image upright.
    pub open spec fn uv_spec(&self, point: V3, normal: V3) -> (int, int) {
        let mn = self.min_spec();
        let mx = self.max_spec();
        let w = 2 * self.half_spec();
        if sabs(normal.z) > 990_000 {
            (fx_div_spec(point.x - mn.x, w), fx_div_spec(point.y - mn.y, w))
        } else if sabs(normal.z) > 10_000 && normal.z < 0 {
            (fx_div_spec(mx.x - point.x, w), fx_div_spec(point.y - mn.y, w))
        } else if sabs(normal.x) > 990_000 && normal.x < 0 {
            (fx_div_spec(mx.z - point.z, w), fx_div_spec(point.y - mn.y, w))
        } else if sabs(normal.x) > 990_000 && normal.x > 0 {
            (fx_div_spec(point.z - mn.z, w), fx_div_spec(point.y - mn.y, w))
        } else if sabs(normal.y) > 990_000 && normal.y > 0 {
            (fx_div_spec(point.x - mn.x, w), fx_div_spec(mx.z - point.z, w))
        } else if sabs(normal.y) > 990_000 && normal.y < 0 {
            (fx_div_spec(point.x - mn.x, w), fx_div_spec(point.z - mn.z, w))
        } else {
            (0, 0)
        }
    }

    /// Texture coordinates of a hit point under a face normal.
    pub fn get_uv(&self, point: &Vec3, normal: &Vec3) -> (r: (i64, i64))
        requires
            self.wf(),
            bounded(point@, 100_000_000_000),
            bounded(normal@, 2_000_000),
        ensures
            r.0 as int == self.uv_spec(point@, normal@).0,
            r.1 as int == self.uv_spec(point@, normal@).1,
    {
        let mn = self.min();
        let mx = self.max();
        let w = 2 * (self.size / 2);
        let nx = abs_i64(normal.x);
        let ny = abs_i64(normal.y);
        let nz = abs_i64(normal.z);
        if nz > 990_000 {
            (fx_div(point.x - mn.x, w), fx_div(point.y - mn.y, w))
        } else if nz > 10_000 && normal.z < 0 {
            (fx_div(mx.x - point.x, w), fx_div(point.y - mn.y, w))
        } else if nx > 990_000 && normal.x < 0 {
            (fx_div(mx.z - point.z, w), fx_div(point.y - mn.y, w))
        } else if nx > 990_000 && normal.x > 0 {
            (fx_div(point.z - mn.z, w), fx_div(point.y - mn.y, w))
        } else if ny > 990_000 && normal.y > 0 {
            (fx_div(point.x - mn.x, w), fx_div(mx.z - point.z, w))
        } else if ny > 990_000 && normal.y < 0 {
            (fx_div(point.x - mn.x, w), fx_div(point.z - mn.z, w))
        } else {
            (0, 0)
        }
    }

    /// The record the intersection query answers for a ray: a hit at the
    /// latest slab entry — or at the earliest exit, with the normal flipped,
    /// when the origin lies inside the cube — and a miss when the slabs do
    /// not overlap in front of the origin or the hit falls outside the
    /// supported world volume.
    #[verifier::opaque]
    pub open spec fn ray_intersect_spec(&self, o: Vec3, d: Vec3) -> Intersect {
        let mn = self.min_spec();
        let mx = self.max_spec();
        let sx = slab_spec(o@.x, d@.x, mn.x, mx.x);
        let sy = slab_spec(o@.y, d@.y, mn.y, mx.y);
        let sz = slab_spec(o@.z, d@.z, mn.z, mx.z);
        let near_xy = if sx.0 >= sy.0 {
            sx.0
        } else {
            sy.0
        };
        let t_near = if near_xy >= sz.0 {
            near_xy
        } else {
            sz.0
        };
        let far_xy = if sx.1 <= sy.1 {
            sx.1
        } else {
            sy.1
        };
        let t_far = if far_xy <= sz.1 {
            far_xy
        } else {
            sz.1
        };
        if t_near < t_far && t_far > 0 {
            let inside = t_near <= 0;
            let t = if inside {
                t_far
            } else {
                t_near
            };
            if t <= T_MAX {
                let point = v3_add_spec(o@, v3_scale_spec(d@, t));
                if in_world(point) {
                    let n0 = self.normal_spec(point);
                    let normal = if inside {
                        v3_neg_spec(n0)
                    } else {
                        n0
                    };
                    let uv = self.uv_spec(point, normal);
                    Intersect {
                        point: Vec3 { x: point.x as i64, y: point.y as i64, z: point.z as i64 },
                        normal: Vec3 {
                            x: normal.x as i64,
                            y: normal.y as i64,
                            z: normal.z as i64,
                        },
                        distance: t as i64,
                        is_intersecting: true,
                        material: self.material,
                        u: uv.0 as i64,
                        v: uv.1 as i64,
                    }
                } else {
                    empty_spec()
                }
            } else {
                empty_spec()
            }
        } else {
            empty_spec()
        }
    }

    /// Intersect a ray with the cube.  The direction is expected to be of
    /// unit order, as `basis_change` and `normalize` produce it.
    pub fn ray_intersect(&self, ray_origin: &Vec3, ray_direction: &Vec3) -> (r: Intersect)
        requires
            self.wf(),
            bounded(ray_origin@, ORIGIN_MAX as int),
            bounded(ray_direction@, 3_000_000),
        ensures
            r == self.ray_intersect_spec(*ray_origin, *ray_direction),
            r.material.wf(),
            r.is_intersecting ==> in_world(r.point@) && bounded(r.normal@, SCALE as int) && 0
                < r.distance <= T_MAX,
    {
        proof {
            reveal(Cube::ray_intersect_spec);
        }
        let mn = self.min();
        let mx = self.max();
        let sx = slab(ray_origin.x, ray_direction.x, mn.x, mx.x);
        let sy = slab(ray_origin.y, ray_direction.y, mn.y, mx.y);
        let sz = slab(ray_origin.z, ray_direction.z, mn.z, mx.z);
        let near_xy: i64 = if sx.0 >= sy.0 {
            sx.0
        } else {
            sy.0
        };
        let t_near: i64 = if near_xy >= sz.0 {
            near_xy
        } else {
            sz.0
        };
        let far_xy: i64 = if sx.1 <= sy.1 {
            sx.1
        } else {
            sy.1
        };
        let t_far: i64 = if far_xy <= sz.1 {
            far_xy
        } else {
            sz.1
        };
        if t_near < t_far && t_far > 0 {
            let inside = t_near <= 0;
            let t: i64 = if inside {
                t_far
            } else {
                t_near
            };
            if t <= T_MAX {
                let scaled = ray_direction.scale(t);
                let point = ray_origin.add(&scaled);
                if inside_world(&point) {
                    let n0 = self.face_normal(&point);
                    let normal = if inside {
                        n0.neg()
                    } else {
                        n0
                    };
                    let uv = self.get_uv(&point, &normal);
                    return Intersect::new(point, normal, t, self.material, uv.0, uv.1);
                }
            }
        }
        Intersect::empty()
    }

    /// The outward face normal at a hit point.
    fn face_normal(&self, point: &Vec3) -> (n: Vec3)
        requires
            self.wf(),
            bounded(point@, 100_000_000_000),
        ensures
            n@ == self.normal_spec(point@),
            bounded(n@, SCALE as int),
    {
        let h = self.size / 2;
        let cx = point.x - self.center.x;
        let cy = point.y - self.center.y;
        let cz = point.z - self.center.z;
        if abs_i64(abs_i64(cx) - h) < NORMAL_EPS {
            Vec3 { x: sign_fx(cx), y: 0, z: 0 }
        } else if abs_i64(abs_i64(cy) - h) < NORMAL_EPS {
            Vec3 { x: 0, y: sign_fx(cy), z: 0 }
        } else if abs_i64(abs_i64(cz) - h) < NORMAL_EPS {
            Vec3 { x: 0, y: 0, z: sign_fx(cz) }
        } else {
            Vec3 { x: 0, y: 0, z: 0 }
        }
    }
}

/// Entry and exit parameters of one axis slab.
fn slab(o: i64, d: i64, lo: i64, hi: i64) -> (r: (i64, i64))
    requires
        sabs(o as int) <= ORIGIN_MAX as int,
        sabs(lo as int) <= 2_000_000_000,
        sabs(hi as int) <= 2_000_000_000,
        sabs(d as int) <= 3_000_000,
    ensures
        r.0 as int == slab_spec(o as int, d as int, lo as int, hi as int).0,
        r.1 as int == slab_spec(o as int, d as int, lo as int, hi as int).1,
{
    if d == 0 {
        if lo <= o && o <= hi {
            (-T_INF, T_INF)
        } else if o < lo {
            (T_INF, T_INF)
        } else {
            (-T_INF, -T_INF)
        }
    } else {
        let t1 = fx_div(lo - o, d);
        let t2 = fx_div(hi - o, d);
        if t1 <= t2 {
            (t1, t2)
        } else {
            (t2, t1)
        }
    }
}

/// Magnitude of a fixed-point scalar.
fn abs_i64(v: i64) -> (r: i64)
    requires
        v > i64::MIN,
    ensures
        r as int == sabs(v as int),
{
    if v < 0 {
        -v
    } else {
        v
    }
}

/// The fixed-point sign of a coordinate, positive for zero.
fn sign_fx(v: i64) -> (r: i64)
    ensures
        r as int == sgn_fx(v as int),
{
    if v >= 0 {
        SCALE
    } else {
        -SCALE
    }
}

} // verus!
