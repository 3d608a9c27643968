//! The recursive Whitted shading core.
//!
//! A cast ray finds the nearest hit among the scene objects, shades it with
//! one point light — a binary shadow test, a diffuse and a specular term —
//! and recurses for reflection and refraction up to a fixed depth.  Rays
//! deeper than the bound, and rays that hit nothing, answer with the sky
//! color.  Every function is proved equal to its specification-level mirror.

use vstd::prelude::*;
use crate::color::{Color, color_add_spec, color_scale_spec};
use crate::fixed::{SCALE, sabs, fx_mul_spec, fx_div_spec, fx_sqrt_spec, fx_clamp_spec,
    fx_pow_spec, fx_mul, fx_div, fx_sqrt, fx_clamp, fx_pow, lemma_sabs_mul, lemma_div_bound,
    lemma_fx_mul_unit_range};
use crate::light::Light;
use crate::material::TextureStore;
use crate::primitive::{Primitive, scene_wf};
use crate::ray_intersect::{Intersect, empty_spec, in_world, ORIGIN_MAX, T_MAX};
use crate::vec3::{Vec3, V3, bounded, vec3_of, dot_fx_spec, norm_spec, normalize_spec,
    v3_add_spec, v3_sub_spec, v3_neg_spec, v3_scale_spec, lemma_dot_bound, lemma_abs_mul_bound};

verus! {

/// The offset applied along the normal before casting secondary rays, a
/// thousandth of a unit: it avoids a secondary ray hitting its own surface.
pub const BIAS_FX: i64 = 1_000;

/// The color of rays that leave the scene, and of rays cut off by the
/// recursion bound.
pub open spec fn sky_color_spec() -> Color {
    Color { r: 135, g: 206, b: 235 }
}

/// Reflection of an incident direction about a normal:
/// `i - 2 (i . n) n`.
#[verifier::opaque]
pub open spec fn reflect_spec(i: V3, n: V3) -> V3 {
    v3_sub_spec(i, v3_scale_spec(n, 2 * dot_fx_spec(i, n)))
}

/// A bias offset along a unit-order normal is at most the bias itself per
/// component.
pub proof fn lemma_bias_bounded(n: V3)
    requires
        bounded(n, SCALE as int),
    ensures
        bounded(v3_scale_spec(n, BIAS_FX as int), BIAS_FX as int),
{
    lemma_sabs_mul(n.x, BIAS_FX as int);
    lemma_sabs_mul(n.y, BIAS_FX as int);
    lemma_sabs_mul(n.z, BIAS_FX as int);
    lemma_div_bound(sabs(n.x * (BIAS_FX as int)), SCALE as int, BIAS_FX as int);
    lemma_div_bound(sabs(n.y * (BIAS_FX as int)), SCALE as int, BIAS_FX as int);
    lemma_div_bound(sabs(n.z * (BIAS_FX as int)), SCALE as int, BIAS_FX as int);
}

/// Reflect an incident direction of unit order about a unit-order normal.
pub fn reflect(incident: &Vec3, normal: &Vec3) -> (r: Vec3)
    requires
        bounded(incident@, 3_000_000),
        bounded(normal@, 3_000_000),
    ensures
        r@ == reflect_spec(incident@, normal@),
        bounded(r@, 200_000_000),
{
    let d: i64 = incident.dot(normal);
    proof {
        reveal(reflect_spec);
        lemma_dot_bound(incident@, normal@, 3_000_000, 3_000_000);
        lemma_div_bound(sabs(crate::vec3::dot_spec(incident@, normal@)), SCALE as int, 27_000_000);
        lemma_abs_mul_bound(normal@.x, 2 * d as int, 3_000_000, 54_000_000);
        lemma_abs_mul_bound(normal@.y, 2 * d as int, 3_000_000, 54_000_000);
        lemma_abs_mul_bound(normal@.z, 2 * d as int, 3_000_000, 54_000_000);
        lemma_div_bound(sabs(normal@.x * (2 * d as int)), SCALE as int, 162_000_000);
        lemma_div_bound(sabs(normal@.y * (2 * d as int)), SCALE as int, 162_000_000);
        lemma_div_bound(sabs(normal@.z * (2 * d as int)), SCALE as int, 162_000_000);
    }
    let scaled = normal.scale(2 * d);
    incident.sub(&scaled)
}

/// Refraction of an incident direction at a surface of the given refractive
/// index, by Snell's law; total internal reflection answers with the
/// reflection instead.  A negative cosine means the ray leaves the medium:
/// the normal flips and the index ratio inverts.
#[verifier::opaque]
pub open spec fn refract_spec(i: V3, n: V3, eta_t: int) -> V3 {
    let cosi = -fx_clamp_spec(dot_fx_spec(i, n), -SCALE as int, SCALE as int);
    let n_cosi = if cosi < 0 {
        -cosi
    } else {
        cosi
    };
    let eta = if cosi < 0 {
        fx_div_spec(SCALE as int, eta_t)
    } else {
        eta_t
    };
    let nn = if cosi < 0 {
        v3_neg_spec(n)
    } else {
        n
    };
    let k = SCALE - fx_mul_spec(fx_mul_spec(eta, eta), SCALE - fx_mul_spec(n_cosi, n_cosi));
    if k < 0 {
        reflect_spec(i, nn)
    } else {
        v3_add_spec(
            v3_scale_spec(i, eta),
            v3_scale_spec(nn, fx_mul_spec(eta, n_cosi) - fx_sqrt_spec(k)),
        )
    }
}

/// Refract an incident direction of unit order about a unit-order normal.
pub fn refract(incident: &Vec3, normal: &Vec3, eta_t: i64) -> (r: Vec3)
    requires
        bounded(incident@, 3_000_000),
        bounded(normal@, 3_000_000),
        0 < eta_t <= 100 * SCALE,
    ensures
        r@ == refract_spec(incident@, normal@, eta_t as int),
        bounded(r@, 20_000_000_000_000),
{
    proof {
        reveal(refract_spec);
    }
    let dn: i64 = incident.dot(normal);
    let cosi: i64 = -fx_clamp(dn, -SCALE, SCALE);
    let n_cosi: i64 = if cosi < 0 {
        -cosi
    } else {
        cosi
    };
    proof {
        lemma_div_bound((SCALE as int) * (SCALE as int), eta_t as int, 1_000_000_000_000);
    }
    let eta: i64 = if cosi < 0 {
        fx_div(SCALE, eta_t)
    } else {
        eta_t
    };
    let nn: Vec3 = if cosi < 0 {
        normal.neg()
    } else {
        *normal
    };
    proof {
        lemma_abs_mul_bound(eta as int, eta as int, 1_000_000_000_000, 1_000_000_000_000);
        lemma_div_bound(
            sabs(eta as int * eta as int),
            SCALE as int,
            1_000_000_000_000_000_000,
        );
        lemma_fx_mul_unit_range(n_cosi as int, n_cosi as int);
    }
    let ee: i64 = fx_mul(eta, eta);
    let cc: i64 = fx_mul(n_cosi, n_cosi);
    proof {
        lemma_abs_mul_bound(ee as int, SCALE - cc as int, 1_000_000_000_000_000_000, 1_000_000);
        lemma_div_bound(
            sabs(ee as int * (SCALE - cc as int)),
            SCALE as int,
            1_000_000_000_000_000_000,
        );
    }
    let k: i64 = SCALE - fx_mul(ee, SCALE - cc);
    if k < 0 {
        reflect(incident, &nn)
    } else {
        let sq: i64 = fx_sqrt(k);
        proof {
            crate::fixed::lemma_sqrt_floor_bounds(((k as int) * (SCALE as int)) as nat);
            assert(sq as int <= 1_000_000) by (nonlinear_arith)
                requires
                    (sq as int) * (sq as int) <= (k as int) * (SCALE as int),
                    k as int <= SCALE as int,
                    SCALE as int == 1_000_000,
                    sq >= 0,
            ;
            lemma_abs_mul_bound(eta as int, n_cosi as int, 1_000_000_000_000, 1_000_000);
            lemma_div_bound(sabs(eta as int * n_cosi as int), SCALE as int, 1_000_000_000_000);
        }
        let f: i64 = fx_mul(eta, n_cosi) - sq;
        let a = incident.scale(eta);
        let b = nn.scale(f);
        a.add(&b)
    }
}

/// Whether one object blocks the shadow ray: it intersects it beyond the
/// bias distance.
pub open spec fn shadow_hit_spec(obj: Primitive, origin: Vec3, dir: Vec3) -> bool {
    let h = obj.ray_intersect_spec(origin, dir);
    h.is_intersecting && h.distance > BIAS_FX
}

/// The shadow factor of a lit point: one when some object stands between
/// the point and the light, zero otherwise (and zero for the degenerate
/// point at the light itself).
#[verifier::opaque]
pub open spec fn cast_shadow_spec(it: Intersect, light: Light, objects: Seq<Primitive>) -> int {
    let dvec = v3_sub_spec(light.position@, it.point@);
    if norm_spec(dvec) == 0 {
        0
    } else {
        let dir = vec3_of(normalize_spec(dvec));
        let origin = vec3_of(v3_add_spec(it.point@, v3_scale_spec(it.normal@, BIAS_FX as int)));
        if exists|j: int| 0 <= j < objects.len() && shadow_hit_spec(objects[j], origin, dir) {
            SCALE as int
        } else {
            0
        }
    }
}

/// Test whether the hit point lies in shadow: cast a ray from the point,
/// biased along the normal, toward the light; any object intersecting it
/// beyond the bias blocks the light completely.  The result is the binary
/// shadow factor: one (fixed-point) in shadow, zero lit.
pub fn cast_shadow(intersect: &Intersect, light: &Light, objects: &Vec<Primitive>) -> (r: i64)
    requires
        light.wf(),
        scene_wf(objects@),
        in_world(intersect.point@),
        bounded(intersect.normal@, SCALE as int),
    ensures
        r as int == cast_shadow_spec(*intersect, *light, objects@),
        r == 0 || r == SCALE,
{
    proof {
        reveal(cast_shadow_spec);
    }
    let ldv = light.position.sub(&intersect.point);
    let m = ldv.magnitude();
    if m == 0 {
        return 0;
    }
    let light_dir = ldv.normalize();
    proof {
        lemma_bias_bounded(intersect.normal@);
    }
    let offset = intersect.normal.scale(BIAS_FX);
    let shadow_origin = intersect.point.add(&offset);
    let ghost sdir = vec3_of(normalize_spec(ldv@));
    let ghost sorg = vec3_of(
        v3_add_spec(intersect.point@, v3_scale_spec(intersect.normal@, BIAS_FX as int)),
    );
    let n = objects.len();
    let mut i: usize = 0;
    while i < n
        invariant
            0 <= i <= n,
            n == objects@.len(),
            scene_wf(objects@),
            sdir == vec3_of(normalize_spec(v3_sub_spec(light.position@, intersect.point@))),
            sorg == vec3_of(
                v3_add_spec(intersect.point@, v3_scale_spec(intersect.normal@, BIAS_FX as int)),
            ),
            light_dir == sdir,
            shadow_origin == sorg,
            bounded(shadow_origin@, ORIGIN_MAX as int),
            bounded(light_dir@, 3_000_000),
            norm_spec(v3_sub_spec(light.position@, intersect.point@)) != 0,
            forall|j: int| 0 <= j < i ==> !shadow_hit_spec(objects@[j], sorg, sdir),
        decreases n - i,
    {
        let sh = objects[i].ray_intersect(&shadow_origin, &light_dir);
        if sh.is_intersecting && sh.distance > BIAS_FX {
            proof {
                reveal(cast_shadow_spec);
                assert(shadow_hit_spec(objects@[i as int], sorg, sdir));
                assert(exists|j: int|
                    0 <= j < objects@.len() && shadow_hit_spec(objects@[j], sorg, sdir));
                assert(norm_spec(v3_sub_spec(light.position@, intersect.point@)) != 0);
                assert(cast_shadow_spec(*intersect, *light, objects@) == SCALE as int);
            }
            return SCALE;
        }
        i = i + 1;
    }
    0
}

/// The nearest hit of a ray among the first objects of a scene list: a
/// strictly closer hit displaces the record found so far, so the earliest
/// object wins ties.
pub open spec fn nearest_hit_spec(objects: Seq<Primitive>, o: Vec3, d: Vec3) -> Intersect
    decreases objects.len(),
{
    if objects.len() == 0 {
        empty_spec()
    } else {
        let prev = nearest_hit_spec(objects.drop_last(), o, d);
        let h = objects.last().ray_intersect_spec(o, d);
        if h.is_intersecting && (!prev.is_intersecting || h.distance < prev.distance) {
            h
        } else {
            prev
        }
    }
}

/// Scan the scene list for the hit of least distance.
fn nearest_hit(objects: &Vec<Primitive>, o: &Vec3, d: &Vec3) -> (r: Intersect)
    requires
        scene_wf(objects@),
        bounded(o@, ORIGIN_MAX as int),
        bounded(d@, 3_000_000),
    ensures
        r == nearest_hit_spec(objects@, *o, *d),
        r.material.wf(),
        r.is_intersecting ==> in_world(r.point@) && bounded(r.normal@, SCALE as int) && 0
            < r.distance <= T_MAX,
{
    let mut best = Intersect::empty();
    let n = objects.len();
    let mut i: usize = 0;
    while i < n
        invariant
            0 <= i <= n,
            n == objects@.len(),
            scene_wf(objects@),
            bounded(o@, ORIGIN_MAX as int),
            bounded(d@, 3_000_000),
            best == nearest_hit_spec(objects@.take(i as int), *o, *d),
            best.material.wf(),
            best.is_intersecting ==> in_world(best.point@) && bounded(best.normal@, SCALE as int)
                && 0 < best.distance <= T_MAX,
        decreases n - i,
    {
        let tmp = objects[i].ray_intersect(o, d);
        proof {
            assert(objects@.take(i as int + 1).drop_last() =~= objects@.take(i as int));
            assert(objects@.take(i as int + 1).last() == objects@[i as int]);
        }
        if tmp.is_intersecting && (!best.is_intersecting || tmp.distance < best.distance) {
            best = tmp;
        }
        i = i + 1;
    }
    proof {
        assert(objects@.take(n as int) =~= objects@);
    }
    best
}

/// The color of a ray: sky beyond the recursion bound, sky on a miss, and
/// otherwise the local diffuse and specular terms under the binary shadow,
/// combined with the recursively traced reflection and refraction according
/// to the material's albedo weights.  Degenerate secondary directions
/// contribute black.
pub open spec fn cast_ray_spec(
    o: Vec3,
    d: Vec3,
    objects: Seq<Primitive>,
    light: Light,
    store: TextureStore,
    depth: int,
) -> Color
    decreases 4 - depth,
{
    if depth > 3 {
        sky_color_spec()
    } else {
        let it = nearest_hit_spec(objects, o, d);
        if !it.is_intersecting {
            sky_color_spec()
        } else {
            let diffuse_base = it.material.diffuse_color_spec(&store, it.u as int, it.v as int);
            let reflectivity = it.material.albedo@[2] as int;
            let transparency = it.material.albedo@[3] as int;
            let reflect_color = if reflectivity > 0 {
                let rd0 = reflect_spec(v3_neg_spec(d@), it.normal@);
                if norm_spec(rd0) > 0 {
                    cast_ray_spec(
                        vec3_of(
                            v3_add_spec(it.point@, v3_scale_spec(it.normal@, BIAS_FX as int)),
                        ),
                        vec3_of(normalize_spec(rd0)),
                        objects,
                        light,
                        store,
                        depth + 1,
                    )
                } else {
                    Color { r: 0, g: 0, b: 0 }
                }
            } else {
                Color { r: 0, g: 0, b: 0 }
            };
            let refract_color = if transparency > 0 {
                let rd0 = refract_spec(d@, it.normal@, it.material.refractive_index as int);
                if norm_spec(rd0) > 0 {
                    cast_ray_spec(
                        vec3_of(
                            v3_sub_spec(it.point@, v3_scale_spec(it.normal@, BIAS_FX as int)),
                        ),
                        vec3_of(normalize_spec(rd0)),
                        objects,
                        light,
                        store,
                        depth + 1,
                    )
                } else {
                    Color { r: 0, g: 0, b: 0 }
                }
            } else {
                Color { r: 0, g: 0, b: 0 }
            };
            let shadow = cast_shadow_spec(it, light, objects);
            let light_factor = fx_mul_spec(SCALE - shadow, light.intensity as int);
            let ldv = v3_sub_spec(light.position@, it.point@);
            let vdv = v3_sub_spec(o@, it.point@);
            let local = if norm_spec(ldv) > 0 && norm_spec(vdv) > 0 {
                let light_dir = normalize_spec(ldv);
                let view_dir = normalize_spec(vdv);
                let refl_dir = reflect_spec(v3_neg_spec(light_dir), it.normal@);
                let diff_i = fx_clamp_spec(dot_fx_spec(it.normal@, light_dir), 0, SCALE as int);
                let diffuse = color_scale_spec(
                    color_scale_spec(
                        color_scale_spec(diffuse_base, it.material.albedo@[0] as int),
                        diff_i,
                    ),
                    light_factor,
                );
                let spec_i = fx_pow_spec(
                    fx_clamp_spec(dot_fx_spec(view_dir, refl_dir), 0, SCALE as int),
                    it.material.specular as nat,
                );
                let specular = color_scale_spec(
                    color_scale_spec(
                        color_scale_spec(light.color, it.material.albedo@[1] as int),
                        spec_i,
                    ),
                    light_factor,
                );
                color_add_spec(diffuse, specular)
            } else {
                Color { r: 0, g: 0, b: 0 }
            };
            color_add_spec(
                color_add_spec(
                    color_scale_spec(local, SCALE - reflectivity - transparency),
                    color_scale_spec(reflect_color, reflectivity),
                ),
                color_scale_spec(refract_color, transparency),
            )
        }
    }
}

/// Trace one ray through the scene and answer its color.
pub fn cast_ray(
    ray_origin: &Vec3,
    ray_direction: &Vec3,
    objects: &Vec<Primitive>,
    light: &Light,
    store: &TextureStore,
    depth: u32,
) -> (r: Color)
    requires
        bounded(ray_origin@, ORIGIN_MAX as int),
        bounded(ray_direction@, 3_000_000),
        scene_wf(objects@),
        light.wf(),
        store.wf(),
    ensures
        r == cast_ray_spec(*ray_origin, *ray_direction, objects@, *light, *store, depth as int),
    decreases 4 - depth,
{
    if depth > 3 {
        return Color::new(135, 206, 235);
    }
    let intersect = nearest_hit(objects, ray_origin, ray_direction);
    if !intersect.is_intersecting {
        return Color::new(135, 206, 235);
    }
    let diffuse_base = intersect.material.get_diffuse_color(store, intersect.u, intersect.v);
    let reflectivity: i64 = intersect.material.albedo[2];
    let transparency: i64 = intersect.material.albedo[3];
    proof {
        lemma_bias_bounded(intersect.normal@);
    }
    let mut reflect_color = Color::black();
    let mut refract_color = Color::black();
    if reflectivity > 0 {
        let neg_dir = ray_direction.neg();
        let rd0 = reflect(&neg_dir, &intersect.normal);
        let mrd = rd0.magnitude();
        if mrd > 0 {
            let reflect_dir = rd0.normalize();
            let offset = intersect.normal.scale(BIAS_FX);
            let reflect_origin = intersect.point.add(&offset);
            reflect_color = cast_ray(
                &reflect_origin,
                &reflect_dir,
                objects,
                light,
                store,
                depth + 1,
            );
        }
    }
    if transparency > 0 {
        let rd0 = refract(ray_direction, &intersect.normal, intersect.material.refractive_index);
        let mrd = rd0.magnitude();
        if mrd > 0 {
            let refract_dir = rd0.normalize();
            let offset = intersect.normal.scale(BIAS_FX);
            let refract_origin = intersect.point.sub(&offset);
            refract_color = cast_ray(
                &refract_origin,
                &refract_dir,
                objects,
                light,
                store,
                depth + 1,
            );
        }
    }
    let shadow = cast_shadow(&intersect, light, objects);
    proof {
        lemma_abs_mul_bound(SCALE - shadow as int, light.intensity as int, 1_000_000, 100_000_000);
        lemma_div_bound(
            sabs((SCALE - shadow as int) * light.intensity as int),
            SCALE as int,
            100_000_000,
        );
    }
    let light_factor: i64 = fx_mul(SCALE - shadow, light.intensity);
    let ldv = light.position.sub(&intersect.point);
    let mld = ldv.magnitude();
    let vdv = ray_origin.sub(&intersect.point);
    let mvd = vdv.magnitude();
    let local: Color = if mld > 0 && mvd > 0 {
        let light_dir = ldv.normalize();
        let view_dir = vdv.normalize();
        let neg_ld = light_dir.neg();
        let refl_dir = reflect(&neg_ld, &intersect.normal);
        let diff_i: i64 = fx_clamp(intersect.normal.dot(&light_dir), 0, SCALE);
        let diffuse = diffuse_base.multiply(intersect.material.albedo[0]).multiply(
            diff_i,
        ).multiply(light_factor);
        let spec_i: i64 = fx_pow(
            fx_clamp(view_dir.dot(&refl_dir), 0, SCALE),
            intersect.material.specular,
        );
        let specular = light.color.multiply(intersect.material.albedo[1]).multiply(
            spec_i,
        ).multiply(light_factor);
        diffuse.add(&specular)
    } else {
        Color::black()
    };
    local.multiply(SCALE - reflectivity - transparency).add(
        &reflect_color.multiply(reflectivity),
    ).add(&refract_color.multiply(transparency))
}

/// Law: a ray cast beyond the recursion bound short-circuits to the sky
/// color, whatever geometry the scene holds.
pub proof fn lemma_depth_cutoff(
    o: Vec3,
    d: Vec3,
    objects: Seq<Primitive>,
    light: Light,
    store: TextureStore,
    depth: int,
)
    requires
        depth > 3,
    ensures
        cast_ray_spec(o, d, objects, light, store, depth) == sky_color_spec(),
{
}

/// Law: when no object of the scene meets the ray, the nearest-hit search
/// reports a miss.
pub proof fn lemma_all_miss_nearest(objects: Seq<Primitive>, o: Vec3, d: Vec3)
    requires
        forall|i: int|
            0 <= i < objects.len() ==> !(#[trigger] objects[i].ray_intersect_spec(
                o,
                d,
            )).is_intersecting,
    ensures
        nearest_hit_spec(objects, o, d) == empty_spec(),
    decreases objects.len(),
{
    if objects.len() > 0 {
        assert(objects.last() == objects[objects.len() - 1]);
        lemma_all_miss_nearest(objects.drop_last(), o, d);
    }
}

/// Law: a ray that meets no object of the scene is shaded with the sky
/// color, at every depth.
pub proof fn lemma_miss_sky(
    o: Vec3,
    d: Vec3,
    objects: Seq<Primitive>,
    light: Light,
    store: TextureStore,
    depth: int,
)
    requires
        forall|i: int|
            0 <= i < objects.len() ==> !(#[trigger] objects[i].ray_intersect_spec(
                o,
                d,
            )).is_intersecting,
    ensures
        cast_ray_spec(o, d, objects, light, store, depth) == sky_color_spec(),
{
    if depth <= 3 {
        lemma_all_miss_nearest(objects, o, d);
    }
}

/// Law: the shadow factor is binary, and it is one exactly when the light
/// does not sit on the shaded point and some object blocks the biased ray
/// from the point toward the light.
pub proof fn lemma_shadow_binary(it: Intersect, light: Light, objects: Seq<Primitive>)
    ensures
        cast_shadow_spec(it, light, objects) == SCALE as int || cast_shadow_spec(it, light, objects)
            == 0,
        cast_shadow_spec(it, light, objects) == SCALE as int <==> (norm_spec(
            v3_sub_spec(light.position@, it.point@),
        ) != 0 && exists|j: int|
            0 <= j < objects.len() && shadow_hit_spec(
                objects[j],
                vec3_of(v3_add_spec(it.point@, v3_scale_spec(it.normal@, BIAS_FX as int))),
                vec3_of(normalize_spec(v3_sub_spec(light.position@, it.point@))),
            )),
{
    reveal(cast_shadow_spec);
}

} // verus!
