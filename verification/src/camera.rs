//! The camera: eye, look-at center and up vector, with the derived view
//! basis, view and projection matrices, and panning.
//!
//! The camera stores the tangent of half the field of view rather than the
//! angle itself: that tangent is the only trigonometric quantity the matrix
//! pipeline reads.  Matrices are row-major fixed-point; degenerate bases
//! (an eye at its center, an up vector along the view direction) answer with
//! the identity matrix or the zero vector.

use vstd::prelude::*;
use crate::fixed::{SCALE, sabs, tmod_spec, fx_mul_spec, fx_div_spec, fx_clamp_spec, fx_mul,
    fx_div, lemma_sabs_mul, lemma_div_bound};
use vstd::arithmetic::mul::lemma_mul_nonnegative;
use crate::vec3::{Vec3, V3, bounded, dot_fx_spec, dot_spec, cross_spec, norm_spec,
    normalize_spec, v3_add_spec, v3_sub_spec, v3_scale_spec, lemma_dot_bound,
    lemma_abs_mul_bound, lemma_dot_self_nonneg};

verus! {

/// A row-major four-by-four fixed-point matrix.
#[derive(Clone, Copy, PartialEq, Eq, Structural)]
pub struct Mat4 {
    pub m00: i64,
    pub m01: i64,
    pub m02: i64,
    pub m03: i64,
    pub m10: i64,
    pub m11: i64,
    pub m12: i64,
    pub m13: i64,
    pub m20: i64,
    pub m21: i64,
    pub m22: i64,
    pub m23: i64,
    pub m30: i64,
    pub m31: i64,
    pub m32: i64,
    pub m33: i64,
}

/// Every entry has magnitude at most `b`.
pub open spec fn mat_abs_bounded(m: Mat4, b: int) -> bool {
    &&& sabs(m.m00 as int) <= b && sabs(m.m01 as int) <= b && sabs(m.m02 as int) <= b && sabs(
        m.m03 as int,
    ) <= b
    &&& sabs(m.m10 as int) <= b && sabs(m.m11 as int) <= b && sabs(m.m12 as int) <= b && sabs(
        m.m13 as int,
    ) <= b
    &&& sabs(m.m20 as int) <= b && sabs(m.m21 as int) <= b && sabs(m.m22 as int) <= b && sabs(
        m.m23 as int,
    ) <= b
    &&& sabs(m.m30 as int) <= b && sabs(m.m31 as int) <= b && sabs(m.m32 as int) <= b && sabs(
        m.m33 as int,
    ) <= b
}

/// The identity matrix.
pub open spec fn mat_identity_spec() -> Mat4 {
    Mat4 {
        m00: SCALE,
        m01: 0,
        m02: 0,
        m03: 0,
        m10: 0,
        m11: SCALE,
        m12: 0,
        m13: 0,
        m20: 0,
        m21: 0,
        m22: SCALE,
        m23: 0,
        m30: 0,
        m31: 0,
        m32: 0,
        m33: SCALE,
    }
}

/// One entry of a matrix product: the scaled dot of a row with a column.
pub open spec fn mm4_spec(a0: int, b0: int, a1: int, b1: int, a2: int, b2: int, a3: int, b3: int) -> int {
    fx_mul_spec(a0, b0) + fx_mul_spec(a1, b1) + fx_mul_spec(a2, b2) + fx_mul_spec(a3, b3)
}

/// One entry of a matrix product, for a left factor of projection order and
/// a right factor of view order.
fn mm4(a0: i64, b0: i64, a1: i64, b1: i64, a2: i64, b2: i64, a3: i64, b3: i64) -> (r: i64)
    requires
        sabs(a0 as int) <= 2_000_000_000_000,
        sabs(a1 as int) <= 2_000_000_000_000,
        sabs(a2 as int) <= 2_000_000_000_000,
        sabs(a3 as int) <= 2_000_000_000_000,
        sabs(b0 as int) <= 100_000_000_000,
        sabs(b1 as int) <= 100_000_000_000,
        sabs(b2 as int) <= 100_000_000_000,
        sabs(b3 as int) <= 100_000_000_000,
    ensures
        r as int == mm4_spec(
            a0 as int,
            b0 as int,
            a1 as int,
            b1 as int,
            a2 as int,
            b2 as int,
            a3 as int,
            b3 as int,
        ),
        sabs(r as int) <= 800_000_000_000_000_000,
{
    proof {
        lemma_abs_mul_bound(a0 as int, b0 as int, 2_000_000_000_000, 100_000_000_000);
        lemma_abs_mul_bound(a1 as int, b1 as int, 2_000_000_000_000, 100_000_000_000);
        lemma_abs_mul_bound(a2 as int, b2 as int, 2_000_000_000_000, 100_000_000_000);
        lemma_abs_mul_bound(a3 as int, b3 as int, 2_000_000_000_000, 100_000_000_000);
        lemma_div_bound(sabs(a0 as int * b0 as int), SCALE as int, 200_000_000_000_000_000);
        lemma_div_bound(sabs(a1 as int * b1 as int), SCALE as int, 200_000_000_000_000_000);
        lemma_div_bound(sabs(a2 as int * b2 as int), SCALE as int, 200_000_000_000_000_000);
        lemma_div_bound(sabs(a3 as int * b3 as int), SCALE as int, 200_000_000_000_000_000);
    }
    fx_mul(a0, b0) + fx_mul(a1, b1) + fx_mul(a2, b2) + fx_mul(a3, b3)
}

/// A camera: an eye, the point it looks at, its up vector, the tangent of
/// half the field of view, the aspect ratio and the two clip planes.
#[derive(Clone, Copy)]
pub struct Camera {
    pub eye: Vec3,
    pub center: Vec3,
    pub up: Vec3,
    pub tan_half_fov: i64,
    pub aspect_ratio: i64,
    pub near_plane: i64,
    pub far_plane: i64,
}

impl Camera {
    /// A camera is well-formed when eye and center lie inside the scene
    /// volume, the up vector is of unit order, the half-angle tangent and
    /// the aspect ratio lie between a tenth and ten, and the clip planes are
    /// positive, ordered and at least one unit apart.
    pub open spec fn wf(&self) -> bool {
        &&& bounded(self.eye@, 1_000_000_000)
        &&& bounded(self.center@, 1_000_000_000)
        &&& bounded(self.up@, 3_000_000)
        &&& 100_000 <= self.tan_half_fov <= 10_000_000
        &&& 100_000 <= self.aspect_ratio <= 10_000_000
        &&& 0 < self.near_plane
        &&& self.near_plane + SCALE <= self.far_plane
        &&& self.far_plane <= 1_000_000_000
    }

    /// Build a camera.
    pub fn new(
        eye: Vec3,
        center: Vec3,
        up: Vec3,
        tan_half_fov: i64,
        aspect_ratio: i64,
        near_plane: i64,
        far_plane: i64,
    ) -> (c: Camera)
        requires
            bounded(eye@, 1_000_000_000),
            bounded(center@, 1_000_000_000),
            bounded(up@, 3_000_000),
            100_000 <= tan_half_fov <= 10_000_000,
            100_000 <= aspect_ratio <= 10_000_000,
            0 < near_plane,
            near_plane + SCALE <= far_plane,
            far_plane <= 1_000_000_000,
        ensures
            c == (Camera { eye, center, up, tan_half_fov, aspect_ratio, near_plane, far_plane }),
            c.wf(),
    {
        Camera { eye, center, up, tan_half_fov, aspect_ratio, near_plane, far_plane }
    }

    /// The unit view direction, from the eye toward the center; the zero
    /// vector when the two coincide.
    pub open spec fn view_direction_spec(&self) -> V3 {
        let d = v3_sub_spec(self.center@, self.eye@);
        if norm_spec(d) == 0 {
            V3 { x: 0, y: 0, z: 0 }
        } else {
            normalize_spec(d)
        }
    }

    /// The unit view direction.
    pub fn view_direction(&self) -> (r: Vec3)
        requires
            self.wf(),
        ensures
            r@ == self.view_direction_spec(),
            bounded(r@, SCALE as int),
    {
        let d = self.center.sub(&self.eye);
        let m = d.magnitude();
        if m == 0 {
            Vec3::zeros()
        } else {
            d.normalize()
        }
    }

    /// The view matrix: the rows are the right, true-up and backward basis
    /// vectors with their translations; a degenerate basis answers with the
    /// identity.
    pub open spec fn view_matrix_spec(&self) -> Mat4 {
        let fv = v3_sub_spec(self.center@, self.eye@);
        if norm_spec(fv) == 0 {
            mat_identity_spec()
        } else {
            let f = normalize_spec(fv);
            let sv = cross_spec(f, self.up@);
            if norm_spec(sv) == 0 {
                mat_identity_spec()
            } else {
                let s = normalize_spec(sv);
                let u = cross_spec(s, f);
                Mat4 {
                    m00: s.x as i64,
                    m01: s.y as i64,
                    m02: s.z as i64,
                    m03: (-dot_fx_spec(s, self.eye@)) as i64,
                    m10: u.x as i64,
                    m11: u.y as i64,
                    m12: u.z as i64,
                    m13: (-dot_fx_spec(u, self.eye@)) as i64,
                    m20: (-f.x) as i64,
                    m21: (-f.y) as i64,
                    m22: (-f.z) as i64,
                    m23: dot_fx_spec(f, self.eye@) as i64,
                    m30: 0,
                    m31: 0,
                    m32: 0,
                    m33: SCALE,
                }
            }
        }
    }

    /// The view matrix.
    pub fn get_view_matrix(&self) -> (r: Mat4)
        requires
            self.wf(),
        ensures
            r == self.view_matrix_spec(),
            mat_abs_bounded(r, 100_000_000_000),
    {
        let fv = self.center.sub(&self.eye);
        let mf = fv.magnitude();
        if mf == 0 {
            return mat_identity();
        }
        let f = fv.normalize();
        let sv = f.cross(&self.up);
        let ms = sv.magnitude();
        if ms == 0 {
            return mat_identity();
        }
        let s = sv.normalize();
        let u = s.cross(&f);
        proof {
            lemma_dot_bound(s@, self.eye@, 1_000_000, 1_000_000_000);
            lemma_dot_bound(u@, self.eye@, 18_000_000, 1_000_000_000);
            lemma_dot_bound(f@, self.eye@, 1_000_000, 1_000_000_000);
            lemma_div_bound(sabs(dot_spec(s@, self.eye@)), SCALE as int, 3_000_000_000);
            lemma_div_bound(sabs(dot_spec(u@, self.eye@)), SCALE as int, 54_000_000_000);
            lemma_div_bound(sabs(dot_spec(f@, self.eye@)), SCALE as int, 3_000_000_000);
        }
        let ts = s.dot(&self.eye);
        let tu = u.dot(&self.eye);
        let tf = f.dot(&self.eye);
        Mat4 {
            m00: s.x,
            m01: s.y,
            m02: s.z,
            m03: -ts,
            m10: u.x,
            m11: u.y,
            m12: u.z,
            m13: -tu,
            m20: -f.x,
            m21: -f.y,
            m22: -f.z,
            m23: tf,
            m30: 0,
            m31: 0,
            m32: 0,
            m33: SCALE,
        }
    }

    /// The perspective projection matrix, from the half-angle tangent, the
    /// aspect ratio and the clip planes.
    pub open spec fn projection_matrix_spec(&self) -> Mat4 {
        let f = fx_div_spec(SCALE as int, self.tan_half_fov as int);
        let m22 = -fx_div_spec(
            self.far_plane + self.near_plane,
            self.far_plane - self.near_plane,
        );
        let m23 = -fx_div_spec(
            2 * fx_mul_spec(self.far_plane as int, self.near_plane as int),
            self.far_plane - self.near_plane,
        );
        Mat4 {
            m00: fx_div_spec(f, self.aspect_ratio as int) as i64,
            m01: 0,
            m02: 0,
            m03: 0,
            m10: 0,
            m11: f as i64,
            m12: 0,
            m13: 0,
            m20: 0,
            m21: 0,
            m22: m22 as i64,
            m23: m23 as i64,
            m30: 0,
            m31: 0,
            m32: (-SCALE) as i64,
            m33: 0,
        }
    }

    /// The perspective projection matrix.
    pub fn get_projection_matrix(&self) -> (r: Mat4)
        requires
            self.wf(),
        ensures
            r == self.projection_matrix_spec(),
            mat_abs_bounded(r, 2_000_000_000_000),
    {
        proof {
            lemma_sabs_mul(SCALE as int, SCALE as int);
            lemma_div_bound((SCALE as int) * (SCALE as int), self.tan_half_fov as int, 10_000_000);
        }
        let f: i64 = fx_div(SCALE, self.tan_half_fov);
        proof {
            lemma_sabs_mul(f as int, SCALE as int);
            lemma_div_bound(sabs(f as int) * (SCALE as int), self.aspect_ratio as int, 100_000_000);
            lemma_sabs_mul((self.far_plane + self.near_plane) as int, SCALE as int);
            lemma_div_bound(
                sabs((self.far_plane + self.near_plane) as int) * (SCALE as int),
                (self.far_plane - self.near_plane) as int,
                2_000_000_000,
            );
            lemma_abs_mul_bound(
                self.far_plane as int,
                self.near_plane as int,
                1_000_000_000,
                1_000_000_000,
            );
            lemma_div_bound(
                sabs(self.far_plane as int * self.near_plane as int),
                SCALE as int,
                1_000_000_000_000,
            );
        }
        let m00: i64 = fx_div(f, self.aspect_ratio);
        let m22: i64 = -fx_div(self.far_plane + self.near_plane, self.far_plane - self.near_plane);
        let fn2: i64 = fx_mul(self.far_plane, self.near_plane);
        proof {
            lemma_sabs_mul(2 * fn2 as int, SCALE as int);
            lemma_div_bound(
                sabs(2 * fn2 as int) * (SCALE as int),
                (self.far_plane - self.near_plane) as int,
                2_000_000_000_000,
            );
        }
        let m23: i64 = -fx_div(2 * fn2, self.far_plane - self.near_plane);
        Mat4 {
            m00,
            m01: 0,
            m02: 0,
            m03: 0,
            m10: 0,
            m11: f,
            m12: 0,
            m13: 0,
            m20: 0,
            m21: 0,
            m22,
            m23,
            m30: 0,
            m31: 0,
            m32: -SCALE,
            m33: 0,
        }
    }

    /// The combined view-projection matrix: the projection matrix times the
    /// view matrix.
    #[verifier::opaque]
    pub open spec fn view_projection_spec(&self) -> Mat4 {
        mat_mul_spec(self.projection_matrix_spec(), self.view_matrix_spec())
    }

    /// The combined view-projection matrix.
    pub fn get_view_projection_matrix(&self) -> (r: Mat4)
        requires
            self.wf(),
        ensures
            r == self.view_projection_spec(),
            mat_abs_bounded(r, 800_000_000_000_000_000),
    {
        proof {
            reveal(Camera::view_projection_spec);
        }
        let p = self.get_projection_matrix();
        let v = self.get_view_matrix();
        mat_mul(&p, &v)
    }

    /// Map a camera-space vector (negative `z` forward) into a world-space
    /// unit direction through the camera's orthonormal basis; any degenerate
    /// step answers with the zero vector.
    pub open spec fn basis_change_spec(&self, v: V3) -> V3 {
        let fv = v3_sub_spec(self.center@, self.eye@);
        if norm_spec(fv) == 0 {
            V3 { x: 0, y: 0, z: 0 }
        } else {
            let forward = normalize_spec(fv);
            let sv = cross_spec(forward, self.up@);
            if norm_spec(sv) == 0 {
                V3 { x: 0, y: 0, z: 0 }
            } else {
                let right = normalize_spec(sv);
                let uv = cross_spec(right, forward);
                if norm_spec(uv) == 0 {
                    V3 { x: 0, y: 0, z: 0 }
                } else {
                    let trueup = normalize_spec(uv);
                    let rotated = v3_sub_spec(
                        v3_add_spec(v3_scale_spec(right, v.x), v3_scale_spec(trueup, v.y)),
                        v3_scale_spec(forward, v.z),
                    );
                    if norm_spec(rotated) == 0 {
                        V3 { x: 0, y: 0, z: 0 }
                    } else {
                        normalize_spec(rotated)
                    }
                }
            }
        }
    }

    /// Map a camera-space vector into a world-space unit direction.
    pub fn basis_change(&self, vector: &Vec3) -> (r: Vec3)
        requires
            self.wf(),
            bounded(vector@, 1_000_000_000),
        ensures
            r@ == self.basis_change_spec(vector@),
            bounded(r@, SCALE as int),
    {
        let fv = self.center.sub(&self.eye);
        let mf = fv.magnitude();
        if mf == 0 {
            return Vec3::zeros();
        }
        let forward = fv.normalize();
        let sv = forward.cross(&self.up);
        let ms = sv.magnitude();
        if ms == 0 {
            return Vec3::zeros();
        }
        let right = sv.normalize();
        let uv = right.cross(&forward);
        let mu = uv.magnitude();
        if mu == 0 {
            return Vec3::zeros();
        }
        let trueup = uv.normalize();
        let a = right.scale(vector.x);
        let b = trueup.scale(vector.y);
        let c = forward.scale(vector.z);
        let rotated = a.add(&b).sub(&c);
        let mr = rotated.magnitude();
        if mr == 0 {
            return Vec3::zeros();
        }
        rotated.normalize()
    }

    /// Pan the whole rig: eye and center translate together, so the view
    /// direction is unchanged.
    pub fn move_camera(&mut self, delta: Vec3)
        requires
            old(self).wf(),
            bounded(delta@, 1_000_000_000),
            bounded(v3_add_spec(old(self).eye@, delta@), 1_000_000_000),
            bounded(v3_add_spec(old(self).center@, delta@), 1_000_000_000),
        ensures
            final(self).eye@ == v3_add_spec(old(self).eye@, delta@),
            final(self).center@ == v3_add_spec(old(self).center@, delta@),
            final(self).up == old(self).up,
            final(self).tan_half_fov == old(self).tan_half_fov,
            final(self).aspect_ratio == old(self).aspect_ratio,
            final(self).near_plane == old(self).near_plane,
            final(self).far_plane == old(self).far_plane,
            final(self).wf(),
    {
        self.eye = self.eye.add(&delta);
        self.center = self.center.add(&delta);
    }
}

/// The angle step of an orbit around the look-at center: the yaw advances
/// and wraps within a full turn, the pitch advances and clamps a tenth of a
/// radian away from either pole, so the rig cannot flip over.  The caller
/// measures the current angles from the eye offset and rebuilds the eye from
/// the result at the unchanged radius.
pub open spec fn orbit_angles_spec(yaw: int, pitch: int, dyaw: int, dpitch: int) -> (int, int) {
    (
        tmod_spec(yaw + dyaw, crate::trig::TWO_PI_FX as int),
        fx_clamp_spec(
            pitch + dpitch,
            -crate::trig::HALF_PI_FX + 100_000,
            crate::trig::HALF_PI_FX - 100_000,
        ),
    )
}

/// Advance an orbit's yaw and pitch: the yaw wraps within a full turn, the
/// pitch clamps away from the poles.
pub fn orbit_angles(yaw: i64, pitch: i64, delta_yaw: i64, delta_pitch: i64) -> (r: (i64, i64))
    requires
        sabs(yaw as int) <= 100 * SCALE,
        sabs(pitch as int) <= 100 * SCALE,
        sabs(delta_yaw as int) <= 100 * SCALE,
        sabs(delta_pitch as int) <= 100 * SCALE,
    ensures
        r.0 as int == orbit_angles_spec(
            yaw as int,
            pitch as int,
            delta_yaw as int,
            delta_pitch as int,
        ).0,
        r.1 as int == orbit_angles_spec(
            yaw as int,
            pitch as int,
            delta_yaw as int,
            delta_pitch as int,
        ).1,
        -crate::trig::HALF_PI_FX + 100_000 <= r.1 <= crate::trig::HALF_PI_FX - 100_000,
    {
    let a: i64 = yaw + delta_yaw;
    proof {
        lemma_div_bound(sabs(a as int), crate::trig::TWO_PI_FX as int, 32);
    }
    let q: i64 = crate::fixed::div_i128(a as i128, crate::trig::TWO_PI_FX as i128) as i64;
    let ny: i64 = a - q * crate::trig::TWO_PI_FX;
    let np: i64 = crate::fixed::fx_clamp(
        pitch + delta_pitch,
        -crate::trig::HALF_PI_FX + 100_000,
        crate::trig::HALF_PI_FX - 100_000,
    );
    (ny, np)
}

/// The eye position an orbit step rebuilds: the center plus the radius
/// directed by the spherical angles, given through their sines and cosines.
pub open spec fn orbit_eye_spec(
    center: V3,
    radius: int,
    sin_yaw: int,
    cos_yaw: int,
    sin_pitch: int,
    cos_pitch: int,
) -> V3 {
    v3_add_spec(
        center,
        V3 {
            x: fx_mul_spec(fx_mul_spec(radius, cos_yaw), cos_pitch),
            y: -fx_mul_spec(radius, sin_pitch),
            z: fx_mul_spec(fx_mul_spec(radius, sin_yaw), cos_pitch),
        },
    )
}

/// Rebuild the orbit eye from the center, the radius and the sines and
/// cosines of the new yaw and pitch.  The caller supplies the circular
/// values; `lemma_orbit_radius` states how well the result keeps the radius.
pub fn orbit_eye(
    center: Vec3,
    radius: i64,
    sin_yaw: i64,
    cos_yaw: i64,
    sin_pitch: i64,
    cos_pitch: i64,
) -> (eye: Vec3)
    requires
        bounded(center@, 1_000_000_000),
        0 <= radius <= 1_000_000_000,
        sabs(sin_yaw as int) <= SCALE as int,
        sabs(cos_yaw as int) <= SCALE as int,
        sabs(sin_pitch as int) <= SCALE as int,
        sabs(cos_pitch as int) <= SCALE as int,
    ensures
        eye@ == orbit_eye_spec(
            center@,
            radius as int,
            sin_yaw as int,
            cos_yaw as int,
            sin_pitch as int,
            cos_pitch as int,
        ),
        bounded(eye@, 2_000_000_000),
{
    proof {
        lemma_orbit_component(radius as int, cos_yaw as int, cos_pitch as int);
        lemma_orbit_component(radius as int, sin_yaw as int, cos_pitch as int);
        lemma_orbit_component_one(radius as int, sin_pitch as int);
        lemma_abs_mul_bound(radius as int, cos_yaw as int, 1_000_000_000, 1_000_000);
        lemma_abs_mul_bound(radius as int, sin_yaw as int, 1_000_000_000, 1_000_000);
        lemma_abs_mul_bound(radius as int, sin_pitch as int, 1_000_000_000, 1_000_000);
        lemma_abs_mul_bound(
            fx_mul_spec(radius as int, cos_yaw as int),
            cos_pitch as int,
            1_000_000_000,
            1_000_000,
        );
        lemma_abs_mul_bound(
            fx_mul_spec(radius as int, sin_yaw as int),
            cos_pitch as int,
            1_000_000_000,
            1_000_000,
        );
    }
    let a: i64 = fx_mul(radius, cos_yaw);
    let x: i64 = fx_mul(a, cos_pitch);
    let y: i64 = -fx_mul(radius, sin_pitch);
    let b: i64 = fx_mul(radius, sin_yaw);
    let z: i64 = fx_mul(b, cos_pitch);
    Vec3 { x: center.x + x, y: center.y + y, z: center.z + z }
}

/// A doubly scaled product of a nonnegative radius with two unit-order
/// factors stays within the radius, and lands within two square ticks of the
/// exact triple product.
proof fn lemma_orbit_component(r: int, u: int, v: int)
    requires
        0 <= r,
        sabs(u) <= 1_000_000,
        sabs(v) <= 1_000_000,
    ensures
        sabs(fx_mul_spec(r, u)) <= r,
        sabs(fx_mul_spec(fx_mul_spec(r, u), v)) <= r,
        sabs(1_000_000_000_000 * fx_mul_spec(fx_mul_spec(r, u), v) - r * u * v)
            <= 2_000_000_000_000,
{
    let a = fx_mul_spec(r, u);
    let w = fx_mul_spec(a, v);
    crate::fixed::lemma_tdiv_near(r * u);
    lemma_sabs_mul(r, u);
    assert(sabs(a) <= r) by (nonlinear_arith)
        requires
            sabs(a) * 1_000_000 <= sabs(r) * sabs(u),
            0 <= r,
            sabs(u) <= 1_000_000,
    ;
    crate::fixed::lemma_tdiv_near(a * v);
    lemma_sabs_mul(a, v);
    assert(sabs(w) <= r) by (nonlinear_arith)
        requires
            sabs(w) * 1_000_000 <= sabs(a) * sabs(v),
            sabs(a) <= r,
            sabs(v) <= 1_000_000,
            0 <= r,
    ;
    let e1 = 1_000_000 * a - r * u;
    let e2 = 1_000_000 * w - a * v;
    assert(1_000_000_000_000 * w - r * u * v == 1_000_000 * e2 + e1 * v) by (nonlinear_arith)
        requires
            e1 == 1_000_000 * a - r * u,
            e2 == 1_000_000 * w - a * v,
    ;
    lemma_abs_mul_bound(e1, v, 1_000_000, 1_000_000);
}

/// A singly scaled product of a nonnegative radius with one unit-order
/// factor stays within the radius, and its square-tick form lands within two
/// square ticks of the exact product.
proof fn lemma_orbit_component_one(r: int, u: int)
    requires
        0 <= r,
        sabs(u) <= 1_000_000,
    ensures
        sabs(fx_mul_spec(r, u)) <= r,
        sabs(1_000_000_000_000 * fx_mul_spec(r, u) - 1_000_000 * (r * u)) <= 2_000_000_000_000,
{
    let a = fx_mul_spec(r, u);
    crate::fixed::lemma_tdiv_near(r * u);
    lemma_sabs_mul(r, u);
    assert(sabs(a) <= r) by (nonlinear_arith)
        requires
            sabs(a) * 1_000_000 <= sabs(r) * sabs(u),
            0 <= r,
            sabs(u) <= 1_000_000,
    ;
    assert(sabs(1_000_000_000_000 * a - 1_000_000 * (r * u)) <= 2_000_000_000_000)
        by (nonlinear_arith)
        requires
            sabs(1_000_000 * a - r * u) < 1_000_000,
    ;
}

/// The square of a component differs from the square of its exact target by
/// at most four fourth-power ticks per unit of radius.
proof fn lemma_orbit_square(w: int, t: int, r: int)
    requires
        0 <= r <= 1_000_000_000,
        sabs(w) <= r,
        sabs(1_000_000_000_000 * w - t) <= 2_000_000_000_000,
        sabs(t) <= r * 1_000_000_000_000,
    ensures
        sabs(1_000_000_000_000_000_000_000_000 * (w * w) - t * t)
            <= 4_000_000_000_000_000_000_000_000 * r + 4_000_000_000_000_000_000_000_000,
{
    let aa = 1_000_000_000_000 * w;
    assert(1_000_000_000_000_000_000_000_000 * (w * w) == aa * aa) by (nonlinear_arith)
        requires
            aa == 1_000_000_000_000 * w,
    ;
    assert(aa * aa - t * t == (aa - t) * (aa + t)) by (nonlinear_arith);
    lemma_abs_mul_bound(
        aa - t,
        aa + t,
        2_000_000_000_000,
        2_000_000_000_000 * r + 2_000_000_000_000,
    );
}

/// The exact squared targets sum to the squared radius, up to the defect of
/// the two circular identities.
proof fn lemma_orbit_trig(r: int, sy: int, cy: int, sp: int, cp: int)
    requires
        0 <= r <= 1_000_000_000,
        sabs(sy) <= 1_000_000,
        sabs(cy) <= 1_000_000,
        sabs(sp) <= 1_000_000,
        sabs(cp) <= 1_000_000,
        sabs(sy * sy + cy * cy - 1_000_000_000_000) <= 8_000_000,
        sabs(sp * sp + cp * cp - 1_000_000_000_000) <= 8_000_000,
    ensures
        sabs((r * cy * cp) * (r * cy * cp) + (1_000_000 * (r * sp)) * (1_000_000 * (r * sp)) + (r
            * sy * cp) * (r * sy * cp) - (r * r) * 1_000_000_000_000_000_000_000_000) <= (r * r)
            * 16_000_000_000_000_000_000,
{
    let e1 = sy * sy + cy * cy - 1_000_000_000_000;
    let e2 = sp * sp + cp * cp - 1_000_000_000_000;
    let rr = r * r;
    let cy2 = cy * cy;
    let sy2 = sy * sy;
    let cp2 = cp * cp;
    let sp2 = sp * sp;
    assert((r * cy * cp) * (r * cy * cp) == rr * (cy2 * cp2)) by (nonlinear_arith)
        requires
            rr == r * r,
            cy2 == cy * cy,
            cp2 == cp * cp,
    ;
    assert((r * sy * cp) * (r * sy * cp) == rr * (sy2 * cp2)) by (nonlinear_arith)
        requires
            rr == r * r,
            sy2 == sy * sy,
            cp2 == cp * cp,
    ;
    assert((1_000_000 * (r * sp)) * (1_000_000 * (r * sp)) == rr * (1_000_000_000_000 * sp2))
        by (nonlinear_arith)
        requires
            rr == r * r,
            sp2 == sp * sp,
    ;
    assert(rr * (cy2 * cp2) + rr * (sy2 * cp2) == rr * (1_000_000_000_000 * cp2) + rr * (cp2
        * e1)) by (nonlinear_arith)
        requires
            e1 == sy2 + cy2 - 1_000_000_000_000,
    ;
    assert(rr * (1_000_000_000_000 * cp2) + rr * (1_000_000_000_000 * sp2) == rr
        * 1_000_000_000_000_000_000_000_000 + rr * (1_000_000_000_000 * e2)) by (nonlinear_arith)
        requires
            e2 == sp2 + cp2 - 1_000_000_000_000,
    ;
    lemma_mul_nonnegative(r, r);
    lemma_abs_mul_bound(r * r, 1_000_000_000_000 * e2, r * r, 8_000_000_000_000_000_000);
    assert(sabs((cp * cp) * e1) <= 8_000_000_000_000_000_000) by (nonlinear_arith)
        requires
            sabs(cp) <= 1_000_000,
            sabs(e1) <= 8_000_000,
    ;
    lemma_abs_mul_bound(r * r, (cp * cp) * e1, r * r, 8_000_000_000_000_000_000);
}

/// Law: an orbit step preserves the distance from the eye to the center.
/// Whenever each supplied sine/cosine pair squares to one within eight
/// millionths, the rebuilt eye lies within `2 * radius / 100_000 + 30` ticks
/// of the given radius from the center — the radius is preserved up to the
/// rounding of the fixed-point reconstruction.
pub proof fn lemma_orbit_radius(center: V3, radius: int, sy: int, cy: int, sp: int, cp: int)
    requires
        0 <= radius <= 1_000_000_000,
        sabs(sy) <= SCALE as int,
        sabs(cy) <= SCALE as int,
        sabs(sp) <= SCALE as int,
        sabs(cp) <= SCALE as int,
        sabs(sy * sy + cy * cy - 1_000_000_000_000) <= 8_000_000,
        sabs(sp * sp + cp * cp - 1_000_000_000_000) <= 8_000_000,
    ensures
        sabs(
            norm_spec(v3_sub_spec(orbit_eye_spec(center, radius, sy, cy, sp, cp), center))
                - radius,
        ) <= 2 * (radius / 100_000) + 30,
{
    let r = radius;
    let w = v3_sub_spec(orbit_eye_spec(center, r, sy, cy, sp, cp), center);
    let wx = w.x;
    let wy = w.y;
    let wz = w.z;
    assert(wx == fx_mul_spec(fx_mul_spec(r, cy), cp));
    assert(wy == -fx_mul_spec(r, sp));
    assert(wz == fx_mul_spec(fx_mul_spec(r, sy), cp));
    lemma_orbit_component(r, cy, cp);
    lemma_orbit_component(r, sy, cp);
    lemma_orbit_component_one(r, sp);
    let tx = r * cy * cp;
    let ty = 1_000_000 * (r * sp);
    let tz = r * sy * cp;
    assert(sabs(tx) <= r * 1_000_000_000_000 && sabs(ty) <= r * 1_000_000_000_000 && sabs(tz) <= r
        * 1_000_000_000_000) by (nonlinear_arith)
        requires
            0 <= r,
            sabs(cy) <= 1_000_000,
            sabs(cp) <= 1_000_000,
            sabs(sy) <= 1_000_000,
            sabs(sp) <= 1_000_000,
            tx == r * cy * cp,
            ty == 1_000_000 * (r * sp),
            tz == r * sy * cp,
    ;
    lemma_orbit_square(wx, tx, r);
    lemma_orbit_square(wy, -ty, r);
    lemma_orbit_square(wz, tz, r);
    assert((-ty) * (-ty) == ty * ty) by (nonlinear_arith);
    lemma_orbit_trig(r, sy, cy, sp, cp);
    let d = dot_spec(w, w);
    lemma_dot_self_nonneg(w);
    assert(1_000_000_000_000_000_000_000_000 * d == 1_000_000_000_000_000_000_000_000 * (wx * wx)
        + 1_000_000_000_000_000_000_000_000 * (wy * wy) + 1_000_000_000_000_000_000_000_000 * (wz
        * wz));
    assert(1_000_000_000_000_000_000_000_000 * d <= 1_000_000_000_000_000_000_000_000 * (r * r) + (
    r * r) * 16_000_000_000_000_000_000 + 12_000_000_000_000_000_000_000_000 * r
        + 12_000_000_000_000_000_000_000_000);
    assert(1_000_000_000_000_000_000_000_000 * d >= 1_000_000_000_000_000_000_000_000 * (r * r) - (
    (r * r) * 16_000_000_000_000_000_000 + 12_000_000_000_000_000_000_000_000 * r
        + 12_000_000_000_000_000_000_000_000));
    let q = r / 100_000;
    vstd::arithmetic::div_mod::lemma_fundamental_div_mod(r, 100_000);
    vstd::arithmetic::div_mod::lemma_mod_division_less_than_divisor(r, 100_000);
    let delta = 2 * q + 30;
    let nrm = norm_spec(w);
    crate::fixed::lemma_sqrt_floor_bounds(d as nat);
    if r <= 2 {
        assert(wx * wx <= 4 && wy * wy <= 4 && wz * wz <= 4) by (nonlinear_arith)
            requires
                sabs(wx) <= r,
                sabs(wy) <= r,
                sabs(wz) <= r,
                0 <= r <= 2,
        ;
        assert(nrm <= 3) by (nonlinear_arith)
            requires
                nrm * nrm <= d,
                d <= 12,
                0 <= nrm,
        ;
    } else {
        assert(16_000_000_000_000_000_000 * (r * r) + 12_000_000_000_000_000_000_000_000 * r
            + 12_000_000_000_000_000_000_000_000 <= 1_000_000_000_000_000_000_000_000 * (2 * (r
            * delta) + delta * delta)) by (nonlinear_arith)
            requires
                delta == 2 * q + 30,
                0 <= q,
                100_000 * q <= r,
                r < 100_000 * (q + 1),
                3 <= r,
        ;
        assert((r + delta) * (r + delta) == r * r + 2 * (r * delta) + delta * delta)
            by (nonlinear_arith);
        assert(d <= (r + delta) * (r + delta));
        assert(nrm <= r + delta) by (nonlinear_arith)
            requires
                nrm * nrm <= d,
                d <= (r + delta) * (r + delta),
                0 <= nrm,
                0 <= r + delta,
        ;
        if delta < r {
            assert(16_000_000_000_000_000_000 * (r * r) + 12_000_000_000_000_000_000_000_000 * r
                + 12_000_000_000_000_000_000_000_000 <= 1_000_000_000_000_000_000_000_000 * (2 * (
            r * delta) - delta * delta)) by (nonlinear_arith)
                requires
                    delta == 2 * q + 30,
                    0 <= q,
                    100_000 * q <= r,
                    r < 100_000 * (q + 1),
                    3 <= r,
                    delta < r,
            ;
            assert((r - delta) * (r - delta) == r * r - 2 * (r * delta) + delta * delta)
                by (nonlinear_arith);
            assert((r - delta) * (r - delta) <= d);
            assert(r - delta <= nrm) by (nonlinear_arith)
                requires
                    (r - delta) * (r - delta) <= d,
                    d < (nrm + 1) * (nrm + 1),
                    0 <= nrm,
                    0 <= r - delta,
            ;
        }
    }
}

/// The product of two matrices, entry by entry.
#[verifier::opaque]
pub open spec fn mat_mul_spec(a: Mat4, b: Mat4) -> Mat4 {
    Mat4 {
        m00: mm4_spec(
            a.m00 as int, b.m00 as int, a.m01 as int, b.m10 as int,
            a.m02 as int, b.m20 as int, a.m03 as int, b.m30 as int,
        ) as i64,
        m01: mm4_spec(
            a.m00 as int, b.m01 as int, a.m01 as int, b.m11 as int,
            a.m02 as int, b.m21 as int, a.m03 as int, b.m31 as int,
        ) as i64,
        m02: mm4_spec(
            a.m00 as int, b.m02 as int, a.m01 as int, b.m12 as int,
            a.m02 as int, b.m22 as int, a.m03 as int, b.m32 as int,
        ) as i64,
        m03: mm4_spec(
            a.m00 as int, b.m03 as int, a.m01 as int, b.m13 as int,
            a.m02 as int, b.m23 as int, a.m03 as int, b.m33 as int,
        ) as i64,
        m10: mm4_spec(
            a.m10 as int, b.m00 as int, a.m11 as int, b.m10 as int,
            a.m12 as int, b.m20 as int, a.m13 as int, b.m30 as int,
        ) as i64,
        m11: mm4_spec(
            a.m10 as int, b.m01 as int, a.m11 as int, b.m11 as int,
            a.m12 as int, b.m21 as int, a.m13 as int, b.m31 as int,
        ) as i64,
        m12: mm4_spec(
            a.m10 as int, b.m02 as int, a.m11 as int, b.m12 as int,
            a.m12 as int, b.m22 as int, a.m13 as int, b.m32 as int,
        ) as i64,
        m13: mm4_spec(
            a.m10 as int, b.m03 as int, a.m11 as int, b.m13 as int,
            a.m12 as int, b.m23 as int, a.m13 as int, b.m33 as int,
        ) as i64,
        m20: mm4_spec(
            a.m20 as int, b.m00 as int, a.m21 as int, b.m10 as int,
            a.m22 as int, b.m20 as int, a.m23 as int, b.m30 as int,
        ) as i64,
        m21: mm4_spec(
            a.m20 as int, b.m01 as int, a.m21 as int, b.m11 as int,
            a.m22 as int, b.m21 as int, a.m23 as int, b.m31 as int,
        ) as i64,
        m22: mm4_spec(
            a.m20 as int, b.m02 as int, a.m21 as int, b.m12 as int,
            a.m22 as int, b.m22 as int, a.m23 as int, b.m32 as int,
        ) as i64,
        m23: mm4_spec(
            a.m20 as int, b.m03 as int, a.m21 as int, b.m13 as int,
            a.m22 as int, b.m23 as int, a.m23 as int, b.m33 as int,
        ) as i64,
        m30: mm4_spec(
            a.m30 as int, b.m00 as int, a.m31 as int, b.m10 as int,
            a.m32 as int, b.m20 as int, a.m33 as int, b.m30 as int,
        ) as i64,
        m31: mm4_spec(
            a.m30 as int, b.m01 as int, a.m31 as int, b.m11 as int,
            a.m32 as int, b.m21 as int, a.m33 as int, b.m31 as int,
        ) as i64,
        m32: mm4_spec(
            a.m30 as int, b.m02 as int, a.m31 as int, b.m12 as int,
            a.m32 as int, b.m22 as int, a.m33 as int, b.m32 as int,
        ) as i64,
        m33: mm4_spec(
            a.m30 as int, b.m03 as int, a.m31 as int, b.m13 as int,
            a.m32 as int, b.m23 as int, a.m33 as int, b.m33 as int,
        ) as i64,
    }
}

/// Multiply a projection-order matrix by a view-order matrix.
pub fn mat_mul(a: &Mat4, b: &Mat4) -> (r: Mat4)
    requires
        mat_abs_bounded(*a, 2_000_000_000_000),
        mat_abs_bounded(*b, 100_000_000_000),
    ensures
        r == mat_mul_spec(*a, *b),
        mat_abs_bounded(r, 800_000_000_000_000_000),
{
    proof {
        reveal(mat_mul_spec);
    }
    Mat4 {
        m00: mm4(a.m00, b.m00, a.m01, b.m10, a.m02, b.m20, a.m03, b.m30),
        m01: mm4(a.m00, b.m01, a.m01, b.m11, a.m02, b.m21, a.m03, b.m31),
        m02: mm4(a.m00, b.m02, a.m01, b.m12, a.m02, b.m22, a.m03, b.m32),
        m03: mm4(a.m00, b.m03, a.m01, b.m13, a.m02, b.m23, a.m03, b.m33),
        m10: mm4(a.m10, b.m00, a.m11, b.m10, a.m12, b.m20, a.m13, b.m30),
        m11: mm4(a.m10, b.m01, a.m11, b.m11, a.m12, b.m21, a.m13, b.m31),
        m12: mm4(a.m10, b.m02, a.m11, b.m12, a.m12, b.m22, a.m13, b.m32),
        m13: mm4(a.m10, b.m03, a.m11, b.m13, a.m12, b.m23, a.m13, b.m33),
        m20: mm4(a.m20, b.m00, a.m21, b.m10, a.m22, b.m20, a.m23, b.m30),
        m21: mm4(a.m20, b.m01, a.m21, b.m11, a.m22, b.m21, a.m23, b.m31),
        m22: mm4(a.m20, b.m02, a.m21, b.m12, a.m22, b.m22, a.m23, b.m32),
        m23: mm4(a.m20, b.m03, a.m21, b.m13, a.m22, b.m23, a.m23, b.m33),
        m30: mm4(a.m30, b.m00, a.m31, b.m10, a.m32, b.m20, a.m33, b.m30),
        m31: mm4(a.m30, b.m01, a.m31, b.m11, a.m32, b.m21, a.m33, b.m31),
        m32: mm4(a.m30, b.m02, a.m31, b.m12, a.m32, b.m22, a.m33, b.m32),
        m33: mm4(a.m30, b.m03, a.m31, b.m13, a.m32, b.m23, a.m33, b.m33),
    }
}

/// The identity matrix.
pub fn mat_identity() -> (r: Mat4)
    ensures
        r == mat_identity_spec(),
        mat_abs_bounded(r, SCALE as int),
{
    Mat4 {
        m00: SCALE,
        m01: 0,
        m02: 0,
        m03: 0,
        m10: 0,
        m11: SCALE,
        m12: 0,
        m13: 0,
        m20: 0,
        m21: 0,
        m22: SCALE,
        m23: 0,
        m30: 0,
        m31: 0,
        m32: 0,
        m33: SCALE,
    }
}

} // verus!
