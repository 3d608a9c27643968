//! The per-pixel render driver.
//!
//! Each pixel maps to normalized device coordinates, becomes a world-space
//! ray through the camera basis, is traced at depth zero and lands in the
//! framebuffer.

use vstd::prelude::*;
use crate::camera::Camera;
use crate::cast_ray::{cast_ray, cast_ray_spec};
use crate::color::Color;
use crate::fixed::{SCALE, sabs, tdiv, fx_mul_spec, fx_mul, div_i128, lemma_div_bound};
use crate::framebuffer::{Framebuffer, fb_index_spec, lemma_fb_index, lemma_fb_index_injective};
use crate::light::Light;
use crate::material::TextureStore;
use crate::primitive::{Primitive, scene_wf};
use crate::vec3::{Vec3, V3, vec3_of, lemma_abs_mul_bound};

verus! {

/// The camera-space ray of a pixel: its normalized device coordinates,
/// widened by the aspect ratio of the output rectangle, ahead of the eye
/// along negative `z`.
pub open spec fn pixel_camera_ray_spec(width: int, height: int, x: int, y: int) -> V3 {
    let aspect = tdiv(width * (SCALE as int), height);
    let sx = fx_mul_spec(tdiv(2 * x * (SCALE as int), width) - SCALE, aspect);
    let sy = SCALE - tdiv(2 * y * (SCALE as int), height);
    V3 { x: sx, y: sy, z: -SCALE as int }
}

/// The color of one pixel: its camera-space ray turned into a world
/// direction through the camera basis and traced at depth zero.
pub open spec fn pixel_color_spec(
    camera: Camera,
    objects: Seq<Primitive>,
    light: Light,
    store: TextureStore,
    width: int,
    height: int,
    x: int,
    y: int,
) -> Color {
    let dir = vec3_of(
        camera.basis_change_spec(pixel_camera_ray_spec(width, height, x, y)),
    );
    cast_ray_spec(camera.eye, dir, objects, light, store, 0)
}

/// Render the scene into the framebuffer: every pixel receives the color of
/// its primary ray.
pub fn render(
    framebuffer: &mut Framebuffer,
    objects: &Vec<Primitive>,
    camera: &Camera,
    light: &Light,
    store: &TextureStore,
)
    requires
        old(framebuffer).wf(),
        old(framebuffer).width <= 100 * old(framebuffer).height,
        camera.wf(),
        scene_wf(objects@),
        light.wf(),
        store.wf(),
    ensures
        final(framebuffer).wf(),
        final(framebuffer).width == old(framebuffer).width,
        final(framebuffer).height == old(framebuffer).height,
        forall|x: int, y: int|
            0 <= x < old(framebuffer).width && 0 <= y < old(framebuffer).height ==> final(
            framebuffer).buffer@[fb_index_spec(old(framebuffer).width as int, x, y)]
                == pixel_color_spec(
                *camera,
                objects@,
                *light,
                *store,
                old(framebuffer).width as int,
                old(framebuffer).height as int,
                x,
                y,
            ),
{
    let width = framebuffer.width;
    let height = framebuffer.height;
    let w64: i64 = width as i64;
    let h64: i64 = height as i64;
    proof {
        lemma_div_bound(w64 as int * (SCALE as int), h64 as int, 100_000_000);
    }
    let aspect: i64 = div_i128((w64 as i128) * 1_000_000, h64 as i128) as i64;
    let mut y: usize = 0;
    while y < height
        invariant
            y <= height,
            framebuffer.wf(),
            framebuffer.width == width,
            framebuffer.height == height,
            1 <= width <= 30_000,
            1 <= height <= 30_000,
            width <= 100 * height,
            w64 == width as i64,
            h64 == height as i64,
            aspect as int == tdiv(width as int * (SCALE as int), height as int),
            sabs(aspect as int) <= 100_000_000,
            camera.wf(),
            scene_wf(objects@),
            light.wf(),
            store.wf(),
            forall|xx: int, yy: int|
                0 <= xx < width && 0 <= yy < y ==> framebuffer.buffer@[fb_index_spec(
                    width as int,
                    xx,
                    yy,
                )] == pixel_color_spec(
                    *camera,
                    objects@,
                    *light,
                    *store,
                    width as int,
                    height as int,
                    xx,
                    yy,
                ),
        decreases height - y,
    {
        let mut x: usize = 0;
        while x < width
            invariant
                x <= width,
                y < height,
                framebuffer.wf(),
                framebuffer.width == width,
                framebuffer.height == height,
                1 <= width <= 30_000,
                1 <= height <= 30_000,
                width <= 100 * height,
                w64 == width as i64,
                h64 == height as i64,
                aspect as int == tdiv(width as int * (SCALE as int), height as int),
                sabs(aspect as int) <= 100_000_000,
                camera.wf(),
                scene_wf(objects@),
                light.wf(),
                store.wf(),
                forall|xx: int, yy: int|
                    0 <= xx < width && 0 <= yy < y ==> framebuffer.buffer@[fb_index_spec(
                        width as int,
                        xx,
                        yy,
                    )] == pixel_color_spec(
                        *camera,
                        objects@,
                        *light,
                        *store,
                        width as int,
                        height as int,
                        xx,
                        yy,
                    ),
                forall|xx: int|
                    0 <= xx < x ==> framebuffer.buffer@[fb_index_spec(width as int, xx, y as int)]
                        == pixel_color_spec(
                        *camera,
                        objects@,
                        *light,
                        *store,
                        width as int,
                        height as int,
                        xx,
                        y as int,
                    ),
            decreases width - x,
        {
            proof {
                lemma_div_bound(2 * (x as int) * (SCALE as int), width as int, 2_000_000);
                lemma_div_bound(2 * (y as int) * (SCALE as int), height as int, 2_000_000);
                lemma_abs_mul_bound(
                    tdiv(2 * (x as int) * (SCALE as int), width as int) - SCALE,
                    aspect as int,
                    1_000_000,
                    100_000_000,
                );
                lemma_div_bound(
                    sabs(
                        (tdiv(2 * (x as int) * (SCALE as int), width as int) - SCALE) * (
                        aspect as int),
                    ),
                    SCALE as int,
                    200_000_000,
                );
            }
            let sx0: i64 = div_i128(2 * (x as i128) * 1_000_000, w64 as i128) as i64 - SCALE;
            let sy: i64 = SCALE - div_i128(2 * (y as i128) * 1_000_000, h64 as i128) as i64;
            let sx: i64 = fx_mul(sx0, aspect);
            let dir = camera.basis_change(&Vec3::new(sx, sy, -SCALE));
            let color = cast_ray(&camera.eye, &dir, objects, light, store, 0);
            framebuffer.set_current_color(color);
            framebuffer.point(x, y);
            proof {
                lemma_fb_index(width as int, height as int, x as int, y as int);
                assert forall|xx: int, yy: int|
                    0 <= xx < width && 0 <= yy < y implies framebuffer.buffer@[fb_index_spec(
                    width as int,
                    xx,
                    yy,
                )] == pixel_color_spec(
                    *camera,
                    objects@,
                    *light,
                    *store,
                    width as int,
                    height as int,
                    xx,
                    yy,
                ) by {
                    lemma_fb_index(width as int, height as int, xx, yy);
                    lemma_fb_index_injective(width as int, xx, yy, x as int, y as int);
                }
                assert forall|xx: int| 0 <= xx < x + 1 implies framebuffer.buffer@[fb_index_spec(
                    width as int,
                    xx,
                    y as int,
                )] == pixel_color_spec(
                    *camera,
                    objects@,
                    *light,
                    *store,
                    width as int,
                    height as int,
                    xx,
                    y as int,
                ) by {
                    if xx < x {
                        lemma_fb_index(width as int, height as int, xx, y as int);
                        lemma_fb_index_injective(width as int, xx, y as int, x as int, y as int);
                    }
                }
            }
            x = x + 1;
        }
        y = y + 1;
    }
}

} // verus!
