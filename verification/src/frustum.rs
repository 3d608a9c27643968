//! The view frustum and its sphere culling test.
//!
//! The six half-space planes come from the camera's view-projection matrix
//! by the standard sums and differences of its rows.  A sphere is culled
//! exactly when its center lies farther than its radius outside some plane.

use vstd::prelude::*;
use crate::camera::{Camera, Mat4};
use crate::fixed::{SCALE, sabs, tdiv, div_i128, lemma_div_bound};
use crate::vec3::{Vec3, V3, bounded, lemma_abs_mul_bound};

verus! {

/// One half-space plane `a x + b y + c z + d >= 0`.
#[derive(Clone, Copy, PartialEq, Eq, Structural)]
pub struct Plane {
    pub a: i64,
    pub b: i64,
    pub c: i64,
    pub d: i64,
}

/// Every coefficient has magnitude at most `m`.
pub open spec fn plane_abs_bounded(p: Plane, m: int) -> bool {
    sabs(p.a as int) <= m && sabs(p.b as int) <= m && sabs(p.c as int) <= m && sabs(p.d as int)
        <= m
}

/// The signed distance of a point from a plane, as a fixed-point scalar:
/// the scaled dot of the normal with the point, plus the offset.
pub open spec fn plane_dist_spec(p: Plane, v: V3) -> int {
    tdiv(p.a * v.x + p.b * v.y + p.c * v.z, SCALE as int) + p.d
}

/// The signed distance of a point from a plane.
fn plane_dist(p: &Plane, v: &Vec3) -> (r: i128)
    requires
        plane_abs_bounded(*p, 2_000_000_000_000_000_000),
        bounded(v@, 100_000_000_000),
    ensures
        r as int == plane_dist_spec(*p, v@),
{
    proof {
        lemma_abs_mul_bound(p.a as int, v@.x, 2_000_000_000_000_000_000, 100_000_000_000);
        lemma_abs_mul_bound(p.b as int, v@.y, 2_000_000_000_000_000_000, 100_000_000_000);
        lemma_abs_mul_bound(p.c as int, v@.z, 2_000_000_000_000_000_000, 100_000_000_000);
    }
    let s: i128 = (p.a as i128) * (v.x as i128) + (p.b as i128) * (v.y as i128) + (p.c as i128)
        * (v.z as i128);
    let q: i128 = div_i128(s, 1_000_000);
    proof {
        lemma_div_bound(sabs(s as int), SCALE as int, 600_000_000_000_000_000_000_000);
    }
    q + (p.d as i128)
}

/// The six planes extracted from a view-projection matrix: sums and
/// differences of the fourth row with the other three, and the near and far
/// pair from the third.
pub open spec fn planes_of_spec(m: Mat4) -> (Plane, Plane, Plane, Plane, Plane, Plane) {
    (
        Plane {
            a: (m.m30 + m.m00) as i64,
            b: (m.m31 + m.m01) as i64,
            c: (m.m32 + m.m02) as i64,
            d: (m.m33 + m.m03) as i64,
        },
        Plane {
            a: (m.m30 - m.m00) as i64,
            b: (m.m31 - m.m01) as i64,
            c: (m.m32 - m.m02) as i64,
            d: (m.m33 - m.m03) as i64,
        },
        Plane {
            a: (m.m30 - m.m10) as i64,
            b: (m.m31 - m.m11) as i64,
            c: (m.m32 - m.m12) as i64,
            d: (m.m33 - m.m13) as i64,
        },
        Plane {
            a: (m.m30 + m.m10) as i64,
            b: (m.m31 + m.m11) as i64,
            c: (m.m32 + m.m12) as i64,
            d: (m.m33 + m.m13) as i64,
        },
        Plane {
            a: (m.m30 + m.m20) as i64,
            b: (m.m31 + m.m21) as i64,
            c: (m.m32 + m.m22) as i64,
            d: (m.m33 + m.m23) as i64,
        },
        Plane {
            a: (m.m30 - m.m20) as i64,
            b: (m.m31 - m.m21) as i64,
            c: (m.m32 - m.m22) as i64,
            d: (m.m33 - m.m23) as i64,
        },
    )
}

/// This frame's view frustum: the left, right, top, bottom, near and far
/// half-space planes.
#[derive(Clone, Copy)]
pub struct Frustum {
    pub left: Plane,
    pub right: Plane,
    pub top: Plane,
    pub bottom: Plane,
    pub near: Plane,
    pub far: Plane,
}

impl Frustum {
    /// Every plane's coefficients are bounded.
    pub open spec fn wf(&self) -> bool {
        &&& plane_abs_bounded(self.left, 2_000_000_000_000_000_000)
        &&& plane_abs_bounded(self.right, 2_000_000_000_000_000_000)
        &&& plane_abs_bounded(self.top, 2_000_000_000_000_000_000)
        &&& plane_abs_bounded(self.bottom, 2_000_000_000_000_000_000)
        &&& plane_abs_bounded(self.near, 2_000_000_000_000_000_000)
        &&& plane_abs_bounded(self.far, 2_000_000_000_000_000_000)
    }

    /// The frustum a camera's view-projection matrix induces.
    pub open spec fn of_camera_spec(camera: Camera) -> Frustum {
        let planes = planes_of_spec(camera.view_projection_spec());
        Frustum {
            left: planes.0,
            right: planes.1,
            top: planes.2,
            bottom: planes.3,
            near: planes.4,
            far: planes.5,
        }
    }

    /// Build the frustum of the camera's current view-projection matrix.
    pub fn new(camera: &Camera) -> (f: Frustum)
        requires
            camera.wf(),
        ensures
            f == Frustum::of_camera_spec(*camera),
            f.wf(),
    {
        let m = camera.get_view_projection_matrix();
        Frustum {
            left: Plane {
                a: m.m30 + m.m00,
                b: m.m31 + m.m01,
                c: m.m32 + m.m02,
                d: m.m33 + m.m03,
            },
            right: Plane {
                a: m.m30 - m.m00,
                b: m.m31 - m.m01,
                c: m.m32 - m.m02,
                d: m.m33 - m.m03,
            },
            top: Plane {
                a: m.m30 - m.m10,
                b: m.m31 - m.m11,
                c: m.m32 - m.m12,
                d: m.m33 - m.m13,
            },
            bottom: Plane {
                a: m.m30 + m.m10,
                b: m.m31 + m.m11,
                c: m.m32 + m.m12,
                d: m.m33 + m.m13,
            },
            near: Plane {
                a: m.m30 + m.m20,
                b: m.m31 + m.m21,
                c: m.m32 + m.m22,
                d: m.m33 + m.m23,
            },
            far: Plane {
                a: m.m30 - m.m20,
                b: m.m31 - m.m21,
                c: m.m32 - m.m22,
                d: m.m33 - m.m23,
            },
        }
    }

    /// Whether a sphere may intersect the frustum: its center is no farther
    /// than its radius outside any of the six planes.  The test is
    /// conservative near edges and corners, as a culling prefilter wants.
    pub open spec fn sphere_in_spec(&self, center: V3, radius: int) -> bool {
        &&& plane_dist_spec(self.left, center) >= -radius
        &&& plane_dist_spec(self.right, center) >= -radius
        &&& plane_dist_spec(self.top, center) >= -radius
        &&& plane_dist_spec(self.bottom, center) >= -radius
        &&& plane_dist_spec(self.near, center) >= -radius
        &&& plane_dist_spec(self.far, center) >= -radius
    }

    /// Test a sphere against all six planes: false exactly when some plane
    /// has the whole sphere outside.
    pub fn is_sphere_in_frustum(&self, center: Vec3, radius: i64) -> (r: bool)
        requires
            self.wf(),
            bounded(center@, 100_000_000_000),
            0 <= radius,
        ensures
            r == self.sphere_in_spec(center@, radius as int),
    {
        let nr: i128 = -(radius as i128);
        if plane_dist(&self.left, &center) < nr {
            return false;
        }
        if plane_dist(&self.right, &center) < nr {
            return false;
        }
        if plane_dist(&self.top, &center) < nr {
            return false;
        }
        if plane_dist(&self.bottom, &center) < nr {
            return false;
        }
        if plane_dist(&self.near, &center) < nr {
            return false;
        }
        if plane_dist(&self.far, &center) < nr {
            return false;
        }
        true
    }
}

} // verus!
