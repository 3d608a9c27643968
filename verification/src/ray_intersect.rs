//! The hit record an intersection query produces.

use vstd::prelude::*;
use crate::material::Material;
use crate::vec3::{Vec3, V3, bounded};

verus! {

/// Largest coordinate magnitude of a hit point the tracer reports: ten
/// thousand units.  A mathematical hit farther out counts as a miss.
pub const WORLD_MAX: i64 = 10_000_000_000;

/// Largest coordinate magnitude of a ray origin: generous room above
/// `WORLD_MAX` for bias offsets applied to hit points.
pub const ORIGIN_MAX: i64 = 20_000_000_000;

/// Largest hit distance the tracer reports.
pub const T_MAX: i64 = 3_000_000_000_000;

/// Smallest unscaled self-dot of a usable ray direction: the square of half
/// a unit.  Directions shorter than that are treated as degenerate and every
/// intersection query answers with a miss.
pub const MIN_DIR_DOT: i64 = 250_000_000_000;

/// The point lies inside the supported world volume.
pub open spec fn in_world(p: V3) -> bool {
    bounded(p, WORLD_MAX as int)
}

/// Runtime test of `in_world`.
pub fn inside_world(v: &Vec3) -> (r: bool)
    ensures
        r == in_world(v@),
{
    -WORLD_MAX <= v.x && v.x <= WORLD_MAX && -WORLD_MAX <= v.y && v.y <= WORLD_MAX && -WORLD_MAX
        <= v.z && v.z <= WORLD_MAX
}

/// The result of one ray-primitive intersection query.  When
/// `is_intersecting` is false no other field is meaningful: the record then
/// carries zeroes and the inert black material.
#[derive(Clone, Copy, Debug)]
pub struct Intersect {
    pub point: Vec3,
    pub normal: Vec3,
    pub distance: i64,
    pub is_intersecting: bool,
    pub material: Material,
    pub u: i64,
    pub v: i64,
}

/// The record of a miss, as a specification value.
pub open spec fn empty_spec() -> Intersect {
    Intersect {
        point: Vec3 { x: 0, y: 0, z: 0 },
        normal: Vec3 { x: 0, y: 0, z: 0 },
        distance: 0,
        is_intersecting: false,
        material: Material::black_spec(),
        u: 0,
        v: 0,
    }
}

impl Intersect {
    /// Build the record of a hit.
    pub fn new(point: Vec3, normal: Vec3, distance: i64, material: Material, u: i64, v: i64) -> (r:
        Intersect)
        ensures
            r == (Intersect { point, normal, distance, is_intersecting: true, material, u, v }),
    {
        Intersect { point, normal, distance, is_intersecting: true, material, u, v }
    }

    /// The record of a miss.
    pub fn empty() -> (r: Intersect)
        ensures
            r == empty_spec(),
            r.material.wf(),
    {
        Intersect {
            point: Vec3::zeros(),
            normal: Vec3::zeros(),
            distance: 0,
            is_intersecting: false,
            material: Material::black(),
            u: 0,
            v: 0,
        }
    }
}

} // verus!
