//! The closed set of scene primitives.
//!
//! A primitive is a sphere or a cube; the tracer asks either for an
//! intersection record and a world position.  The per-frame culled object
//! list copies primitives by value, which is cheap: a primitive is its
//! geometry, a material and a texture handle.

use vstd::prelude::*;
use crate::cube::Cube;
use crate::fixed::SCALE;
use crate::ray_intersect::{Intersect, in_world, ORIGIN_MAX, T_MAX};
use crate::sphere::Sphere;
use crate::vec3::{Vec3, bounded};

verus! {

/// One scene object: a sphere or an axis-aligned cube.
#[derive(Clone, Copy)]
pub enum Primitive {
    Sphere(Sphere),
    Cube(Cube),
}

/// Every object of a scene list is well-formed.
pub open spec fn scene_wf(objects: Seq<Primitive>) -> bool {
    forall|i: int| 0 <= i < objects.len() ==> (#[trigger] objects[i]).wf()
}

impl Primitive {
    /// The primitive's own well-formedness.
    pub open spec fn wf(&self) -> bool {
        match self {
            Primitive::Sphere(s) => s.wf(),
            Primitive::Cube(c) => c.wf(),
        }
    }

    /// The record the primitive's intersection query answers.
    pub open spec fn ray_intersect_spec(&self, o: Vec3, d: Vec3) -> Intersect {
        match self {
            Primitive::Sphere(s) => s.ray_intersect_spec(o, d),
            Primitive::Cube(c) => c.ray_intersect_spec(o, d),
        }
    }

    /// Every hit record a well-formed primitive can answer lies inside the
    /// world volume, carries a unit-order normal, a positive bounded
    /// distance and a well-formed material.
    pub open spec fn hit_wf(&self, r: Intersect) -> bool {
        &&& r.material.wf()
        &&& r.is_intersecting ==> {
            &&& in_world(r.point@)
            &&& bounded(r.normal@, SCALE as int)
            &&& 0 < r.distance <= T_MAX
        }
    }

    /// Intersect a ray with the primitive.
    pub fn ray_intersect(&self, ray_origin: &Vec3, ray_direction: &Vec3) -> (r: Intersect)
        requires
            self.wf(),
            bounded(ray_origin@, ORIGIN_MAX as int),
            bounded(ray_direction@, 3_000_000),
        ensures
            r == self.ray_intersect_spec(*ray_origin, *ray_direction),
            self.hit_wf(r),
    {
        match self {
            Primitive::Sphere(s) => s.ray_intersect(ray_origin, ray_direction),
            Primitive::Cube(c) => c.ray_intersect(ray_origin, ray_direction),
        }
    }

    /// The primitive's current world position.
    pub fn position(&self) -> (r: Vec3)
        ensures
            r == match self {
                Primitive::Sphere(s) => s.center,
                Primitive::Cube(c) => c.center,
            },
    {
        match self {
            Primitive::Sphere(s) => s.center,
            Primitive::Cube(c) => c.position(),
        }
    }
}

} // verus!
