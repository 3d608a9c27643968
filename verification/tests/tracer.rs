use raytracer::camera::{orbit_angles, orbit_eye, Camera};
use raytracer::cast_ray::{cast_ray, cast_shadow, reflect, refract};
use raytracer::color::Color;
use raytracer::cube::Cube;
use raytracer::fixed::{fx_mul, fx_div, fx_sqrt, fx_pow, SCALE};
use raytracer::framebuffer::Framebuffer;
use raytracer::frustum::Frustum;
use raytracer::grid::{Grid3D, GridObject};
use raytracer::light::Light;
use raytracer::material::{Material, Texture, TextureStore};
use raytracer::primitive::Primitive;
use raytracer::ray_intersect::Intersect;
use raytracer::render::render;
use raytracer::sphere::Sphere;
use raytracer::vec3::Vec3;

fn plain_material(diffuse: Color) -> Material {
    Material::new(diffuse, 0, [SCALE, 0, 0, 0], SCALE, None, false)
}

fn fx(units: i64) -> i64 {
    units * SCALE
}

#[test]
fn fixed_point_arithmetic() {
    assert_eq!(fx_mul(fx(3), fx(4)), fx(12));
    assert_eq!(fx_mul(1_500_000, 1_500_000), 2_250_000);
    assert_eq!(fx_mul(-1_500_000, 2_000_000), -3_000_000);
    assert_eq!(fx_div(fx(10), fx(4)), 2_500_000);
    assert_eq!(fx_div(fx(1), fx(-2)), -500_000);
    assert_eq!(fx_sqrt(fx(4)), fx(2));
    assert_eq!(fx_sqrt(fx(2)), 1_414_213);
    assert_eq!(fx_pow(500_000, 2), 250_000);
    assert_eq!(fx_pow(250_000, 0), SCALE);
}

#[test]
fn vector_operations() {
    let v = Vec3::new(fx(3), fx(4), 0);
    assert_eq!(v.magnitude(), fx(5));
    assert_eq!(v.normalize(), Vec3::new(600_000, 800_000, 0));
    let a = Vec3::new(fx(1), 0, 0);
    let b = Vec3::new(0, fx(1), 0);
    assert_eq!(a.cross(&b), Vec3::new(0, 0, fx(1)));
    assert_eq!(a.dot(&b), 0);
    assert_eq!(a.dot(&a), fx(1));
    assert_eq!(a.add(&b), Vec3::new(fx(1), fx(1), 0));
    assert_eq!(a.sub(&b), Vec3::new(fx(1), -fx(1), 0));
    assert_eq!(a.scale(fx(3)), Vec3::new(fx(3), 0, 0));
}

#[test]
fn sphere_intersection_head_on() {
    let s = Sphere::new(Vec3::new(0, 0, 0), fx(1), plain_material(Color::new(255, 0, 0)));
    let hit = s.ray_intersect(&Vec3::new(0, 0, fx(5)), &Vec3::new(0, 0, -fx(1)));
    assert!(hit.is_intersecting);
    assert_eq!(hit.distance, fx(4));
    assert_eq!(hit.point, Vec3::new(0, 0, fx(1)));
    assert_eq!(hit.normal, Vec3::new(0, 0, fx(1)));
}

#[test]
fn sphere_miss() {
    let s = Sphere::new(Vec3::new(0, 0, 0), fx(1), plain_material(Color::new(255, 0, 0)));
    let hit = s.ray_intersect(&Vec3::new(0, 0, fx(5)), &Vec3::new(0, fx(1), 0));
    assert!(!hit.is_intersecting);
    let behind = s.ray_intersect(&Vec3::new(0, 0, fx(5)), &Vec3::new(0, 0, fx(1)));
    assert!(!behind.is_intersecting);
}

#[test]
fn cube_intersection_head_on() {
    let c = Cube::new(Vec3::new(0, 0, 0), fx(2), plain_material(Color::new(0, 255, 0)));
    let hit = c.ray_intersect(&Vec3::new(0, 0, fx(5)), &Vec3::new(0, 0, -fx(1)));
    assert!(hit.is_intersecting);
    assert_eq!(hit.distance, fx(4));
    assert_eq!(hit.point, Vec3::new(0, 0, fx(1)));
    assert_eq!(hit.normal, Vec3::new(0, 0, fx(1)));
}

#[test]
fn cube_miss_and_inside() {
    let c = Cube::new(Vec3::new(0, 0, 0), fx(2), plain_material(Color::new(0, 255, 0)));
    let miss = c.ray_intersect(&Vec3::new(0, fx(5), fx(5)), &Vec3::new(0, 0, -fx(1)));
    assert!(!miss.is_intersecting);
    // A ray from inside reports the exit face with the normal flipped inward.
    let inside = c.ray_intersect(&Vec3::new(0, 0, 0), &Vec3::new(0, 0, -fx(1)));
    assert!(inside.is_intersecting);
    assert_eq!(inside.distance, fx(1));
    assert_eq!(inside.normal, Vec3::new(0, 0, fx(1)));
}

#[test]
fn cube_corners_follow_position() {
    let mut c = Cube::new(Vec3::new(0, 0, 0), fx(2), plain_material(Color::new(9, 9, 9)));
    assert_eq!(c.min(), Vec3::new(-fx(1), -fx(1), -fx(1)));
    assert_eq!(c.max(), Vec3::new(fx(1), fx(1), fx(1)));
    c.set_position(Vec3::new(fx(3), 0, 0));
    assert_eq!(c.position(), Vec3::new(fx(3), 0, 0));
    assert_eq!(c.min(), Vec3::new(fx(2), -fx(1), -fx(1)));
    assert_eq!(c.max(), Vec3::new(fx(4), fx(1), fx(1)));
}

#[test]
fn color_saturating_add() {
    let a = Color::new(250, 250, 250);
    let b = Color::new(10, 10, 10);
    assert_eq!(a.add(&b), Color::new(255, 255, 255));
    let c = Color::new(1, 2, 3);
    assert_eq!(c.add(&Color::new(4, 5, 6)), Color::new(5, 7, 9));
}

#[test]
fn color_scaling_clamps() {
    let c = Color::new(100, 100, 100);
    assert_eq!(c.multiply(1_500_000), Color::new(150, 150, 150));
    assert_eq!(c.multiply(3_000_000), Color::new(255, 255, 255));
    assert_eq!(c.multiply(-1_000_000), Color::new(0, 0, 0));
    assert_eq!(c.multiply(0), Color::new(0, 0, 0));
}

#[test]
fn color_from_hex() {
    assert_eq!(Color::from_hex("ff00aa"), Ok(Color::new(255, 0, 170)));
    assert_eq!(Color::from_hex("FF00AA"), Ok(Color::new(255, 0, 170)));
    assert_eq!(Color::from_hex("012345"), Ok(Color::new(1, 35, 69)));
    assert_eq!(Color::from_hex("+f00aa"), Ok(Color::new(15, 0, 170)));
    assert_eq!(Color::from_hex("ff00a"), Err("Hex color must be 6 characters long."));
    assert_eq!(Color::from_hex("ff00aab"), Err("Hex color must be 6 characters long."));
    assert_eq!(Color::from_hex("zz00aa"), Err("Invalid hex value"));
    // A minus sign is accepted only by signed parses, never here.
    assert_eq!(Color::from_hex("-00000"), Err("Invalid hex value"));
    assert_eq!(Color::from_hex(""), Err("Hex color must be 6 characters long."));
}

#[test]
fn material_clamps_weights() {
    let m = Material::new(
        Color::new(1, 2, 3),
        7,
        [2 * SCALE, -SCALE, 300_000, SCALE],
        300 * SCALE,
        None,
        false,
    );
    assert_eq!(m.albedo, [SCALE, 0, 300_000, SCALE]);
    assert_eq!(m.refractive_index, 100 * SCALE);
    assert_eq!(m.diffuse, Color::new(1, 2, 3));
    let black = Material::black();
    assert_eq!(black.diffuse, Color::new(0, 0, 0));
    assert_eq!(black.albedo, [0, 0, 0, 0]);
}

#[test]
fn texture_sampling() {
    let mut store = TextureStore::new();
    let tex = Texture::new(
        vec![Color::new(255, 0, 0), Color::new(0, 0, 255)],
        2,
        1,
    );
    assert_eq!(tex.get_color(1, 0), Color::new(0, 0, 255));
    let handle = store.push(tex);
    let m = Material::new(
        Color::new(9, 9, 9),
        0,
        [SCALE, 0, 0, 0],
        SCALE,
        Some(handle),
        true,
    );
    assert_eq!(m.get_diffuse_color(&store, 0, 0), Color::new(255, 0, 0));
    assert_eq!(m.get_diffuse_color(&store, SCALE, 0), Color::new(0, 0, 255));
    // Out-of-range coordinates clamp to the border.
    assert_eq!(m.get_diffuse_color(&store, 5 * SCALE, 0), Color::new(0, 0, 255));
    assert_eq!(m.get_diffuse_color(&store, -SCALE, 0), Color::new(255, 0, 0));
    // Without a texture the flat diffuse color answers.
    let flat = plain_material(Color::new(7, 8, 9));
    assert_eq!(flat.get_diffuse_color(&store, 0, 0), Color::new(7, 8, 9));
}

#[test]
fn reflect_head_on() {
    let r = reflect(&Vec3::new(0, 0, -fx(1)), &Vec3::new(0, 0, fx(1)));
    assert_eq!(r, Vec3::new(0, 0, fx(1)));
    let grazing = reflect(&Vec3::new(fx(1), 0, 0), &Vec3::new(0, fx(1), 0));
    assert_eq!(grazing, Vec3::new(fx(1), 0, 0));
}

#[test]
fn refract_straight_through() {
    let r = refract(&Vec3::new(0, 0, -fx(1)), &Vec3::new(0, 0, fx(1)), 1_500_000);
    assert_eq!(r, Vec3::new(0, 0, -fx(1)));
}

#[test]
fn miss_falls_back_to_sky() {
    let store = TextureStore::new();
    let light = Light::new(Vec3::new(0, fx(10), fx(10)), Color::new(255, 255, 255), fx(1));
    let objects: Vec<Primitive> = vec![Primitive::Sphere(Sphere::new(
        Vec3::new(0, 0, 0),
        fx(1),
        plain_material(Color::new(255, 0, 0)),
    ))];
    let c = cast_ray(
        &Vec3::new(0, 0, fx(5)),
        &Vec3::new(0, fx(1), 0),
        &objects,
        &light,
        &store,
        0,
    );
    assert_eq!(c, Color::new(135, 206, 235));
}

#[test]
fn depth_guard_returns_sky() {
    let store = TextureStore::new();
    let light = Light::new(Vec3::new(0, fx(10), fx(10)), Color::new(255, 255, 255), fx(1));
    let mirror = Material::new(Color::new(255, 255, 255), 0, [0, 0, SCALE, 0], SCALE, None, false);
    // Two fully reflective cubes facing each other across the origin.
    let objects: Vec<Primitive> = vec![
        Primitive::Cube(Cube::new(Vec3::new(0, 0, fx(4)), fx(2), mirror)),
        Primitive::Cube(Cube::new(Vec3::new(0, 0, -fx(4)), fx(2), mirror)),
    ];
    let c = cast_ray(
        &Vec3::new(0, 0, 0),
        &Vec3::new(0, 0, -fx(1)),
        &objects,
        &light,
        &store,
        4,
    );
    assert_eq!(c, Color::new(135, 206, 235));
}

#[test]
fn fully_diffuse_head_on_hit_shows_the_material() {
    let store = TextureStore::new();
    // Light straight behind the ray origin: the surface is lit head on.
    let light = Light::new(Vec3::new(0, 0, fx(10)), Color::new(255, 255, 255), fx(1));
    let objects: Vec<Primitive> = vec![Primitive::Sphere(Sphere::new(
        Vec3::new(0, 0, 0),
        fx(1),
        plain_material(Color::new(200, 40, 10)),
    ))];
    let c = cast_ray(
        &Vec3::new(0, 0, fx(5)),
        &Vec3::new(0, 0, -fx(1)),
        &objects,
        &light,
        &store,
        0,
    );
    assert_eq!(c, Color::new(200, 40, 10));
}

#[test]
fn nearest_object_wins() {
    let store = TextureStore::new();
    let light = Light::new(Vec3::new(0, 0, fx(10)), Color::new(255, 255, 255), fx(1));
    let near = Primitive::Sphere(Sphere::new(
        Vec3::new(0, 0, 0),
        fx(1),
        plain_material(Color::new(200, 0, 0)),
    ));
    let far = Primitive::Sphere(Sphere::new(
        Vec3::new(0, 0, -fx(4)),
        fx(1),
        plain_material(Color::new(0, 0, 200)),
    ));
    // The same scene in both orders shades with the nearer sphere.
    let a = cast_ray(
        &Vec3::new(0, 0, fx(5)),
        &Vec3::new(0, 0, -fx(1)),
        &vec![near, far],
        &light,
        &store,
        0,
    );
    let b = cast_ray(
        &Vec3::new(0, 0, fx(5)),
        &Vec3::new(0, 0, -fx(1)),
        &vec![far, near],
        &light,
        &store,
        0,
    );
    assert_eq!(a, Color::new(200, 0, 0));
    assert_eq!(b, Color::new(200, 0, 0));
}

#[test]
fn shadow_factor_is_binary() {
    let material = plain_material(Color::new(200, 0, 0));
    let it = Intersect::new(
        Vec3::new(0, 0, fx(1)),
        Vec3::new(0, 0, fx(1)),
        fx(4),
        material,
        0,
        0,
    );
    let light = Light::new(Vec3::new(0, fx(8), fx(9)), Color::new(255, 255, 255), fx(1));
    let occluder = Primitive::Cube(Cube::new(
        Vec3::new(0, fx(4), fx(5)),
        fx(2),
        plain_material(Color::new(1, 1, 1)),
    ));
    let unoccluded: Vec<Primitive> = vec![];
    assert_eq!(cast_shadow(&it, &light, &unoccluded), 0);
    let occluded: Vec<Primitive> = vec![occluder];
    assert_eq!(cast_shadow(&it, &light, &occluded), SCALE);
}

#[test]
fn occluder_darkens_the_surface() {
    let store = TextureStore::new();
    let light = Light::new(Vec3::new(0, fx(8), fx(9)), Color::new(255, 255, 255), fx(1));
    let target = Primitive::Sphere(Sphere::new(
        Vec3::new(0, 0, 0),
        fx(1),
        plain_material(Color::new(255, 0, 0)),
    ));
    let occluder = Primitive::Cube(Cube::new(
        Vec3::new(0, fx(4), fx(5)),
        fx(2),
        plain_material(Color::new(1, 1, 1)),
    ));
    let lit = cast_ray(
        &Vec3::new(0, 0, fx(5)),
        &Vec3::new(0, 0, -fx(1)),
        &vec![target],
        &light,
        &store,
        0,
    );
    let shadowed = cast_ray(
        &Vec3::new(0, 0, fx(5)),
        &Vec3::new(0, 0, -fx(1)),
        &vec![target, occluder],
        &light,
        &store,
        0,
    );
    // Head-on diffuse under the off-axis light: 255 * 0.707106 truncated.
    assert_eq!(lit, Color::new(180, 0, 0));
    assert_eq!(shadowed, Color::new(0, 0, 0));
}

#[test]
fn camera_basis_and_view_direction() {
    let cam = Camera::new(
        Vec3::new(0, 0, fx(5)),
        Vec3::new(0, 0, 0),
        Vec3::new(0, fx(1), 0),
        577_000,
        1_333_333,
        100_000,
        fx(100),
    );
    assert_eq!(cam.view_direction(), Vec3::new(0, 0, -fx(1)));
    let ahead = cam.basis_change(&Vec3::new(0, 0, -fx(1)));
    assert_eq!(ahead, Vec3::new(0, 0, -fx(1)));
    let right = cam.basis_change(&Vec3::new(fx(1), 0, 0));
    assert_eq!(right, Vec3::new(fx(1), 0, 0));
}

#[test]
fn camera_pans_rig() {
    let mut cam = Camera::new(
        Vec3::new(0, 0, fx(5)),
        Vec3::new(0, 0, 0),
        Vec3::new(0, fx(1), 0),
        577_000,
        1_333_333,
        100_000,
        fx(100),
    );
    cam.move_camera(Vec3::new(fx(1), 0, -fx(2)));
    assert_eq!(cam.eye, Vec3::new(fx(1), 0, fx(3)));
    assert_eq!(cam.center, Vec3::new(fx(1), 0, -fx(2)));
    assert_eq!(cam.view_direction(), Vec3::new(0, 0, -fx(1)));
}

#[test]
fn frustum_culls_spheres() {
    let cam = Camera::new(
        Vec3::new(0, 0, fx(5)),
        Vec3::new(0, 0, 0),
        Vec3::new(0, fx(1), 0),
        577_000,
        1_333_333,
        100_000,
        fx(100),
    );
    let frustum = Frustum::new(&cam);
    // The sphere at the look-at target is visible.
    assert!(frustum.is_sphere_in_frustum(Vec3::new(0, 0, 0), fx(1)));
    // A sphere a thousand units behind the camera is culled.
    assert!(!frustum.is_sphere_in_frustum(Vec3::new(0, 0, fx(1005)), fx(1)));
}

#[test]
fn grid_places_and_reads_objects() {
    let mut g = Grid3D::new(10);
    assert_eq!(g.len(), 10);
    assert_eq!(g.get_object(1, 2, 3), GridObject::Empty);
    g.place_object(1, 2, 3, GridObject::Cube);
    g.place_object(0, 0, 0, GridObject::Sphere);
    assert_eq!(g.get_object(1, 2, 3), GridObject::Cube);
    assert_eq!(g.get_object(0, 0, 0), GridObject::Sphere);
    assert_eq!(g.get_object(1, 2, 4), GridObject::Empty);
    // Out-of-range positions are a no-op to write and empty to read.
    g.place_object(10, 0, 0, GridObject::Cube);
    assert_eq!(g.get_object(10, 0, 0), GridObject::Empty);
}

#[test]
fn framebuffer_plots_points() {
    let mut fb = Framebuffer::new(4, 3);
    assert_eq!(fb.buffer.len(), 12);
    assert_eq!(fb.buffer[0], Color::new(0, 0, 0));
    fb.set_current_color(Color::new(9, 8, 7));
    fb.point(2, 1);
    assert_eq!(fb.buffer[1 * 4 + 2], Color::new(9, 8, 7));
    assert_eq!(fb.buffer[0], Color::new(0, 0, 0));
}

#[test]
fn render_empty_scene_is_all_sky() {
    let store = TextureStore::new();
    let light = Light::new(Vec3::new(0, fx(10), fx(10)), Color::new(255, 255, 255), fx(1));
    let cam = Camera::new(
        Vec3::new(0, 0, fx(5)),
        Vec3::new(0, 0, 0),
        Vec3::new(0, fx(1), 0),
        577_000,
        1_333_333,
        100_000,
        fx(100),
    );
    let objects: Vec<Primitive> = vec![];
    let mut fb = Framebuffer::new(4, 4);
    render(&mut fb, &objects, &cam, &light, &store);
    for pixel in fb.buffer.iter() {
        assert_eq!(*pixel, Color::new(135, 206, 235));
    }
}

#[test]
fn render_centered_sphere_marks_pixels() {
    let store = TextureStore::new();
    let light = Light::new(Vec3::new(0, 0, fx(10)), Color::new(255, 255, 255), fx(1));
    let cam = Camera::new(
        Vec3::new(0, 0, fx(5)),
        Vec3::new(0, 0, 0),
        Vec3::new(0, fx(1), 0),
        577_000,
        SCALE,
        100_000,
        fx(100),
    );
    let objects: Vec<Primitive> = vec![Primitive::Sphere(Sphere::new(
        Vec3::new(0, 0, 0),
        fx(3),
        plain_material(Color::new(200, 40, 10)),
    ))];
    let mut fb = Framebuffer::new(3, 3);
    render(&mut fb, &objects, &cam, &light, &store);
    // The central pixel's ray runs straight down the axis into the sphere.
    assert_ne!(fb.buffer[1 * 3 + 1], Color::new(135, 206, 235));
    // The top-left corner ray leaves the scene.
    assert_eq!(fb.buffer[0], Color::new(135, 206, 235));
}

#[test]
fn sphere_uv_covers_the_unit_square() {
    let s = Sphere::new(Vec3::new(0, 0, 0), fx(1), plain_material(Color::new(1, 1, 1)));
    let (u, v) = s.get_uv(&Vec3::new(fx(1), 0, 0));
    assert!(0 <= u && u <= SCALE);
    assert!(0 <= v && v <= SCALE);
    // The positive-x pole sits at the middle band of the texture.
    assert_eq!(u, 500_000);
    let (_, vtop) = s.get_uv(&Vec3::new(0, fx(1), 0));
    let (_, vbottom) = s.get_uv(&Vec3::new(0, -fx(1), 0));
    assert!(vtop < vbottom);
}

#[test]
fn cube_uv_maps_faces() {
    let c = Cube::new(Vec3::new(0, 0, 0), fx(2), plain_material(Color::new(1, 1, 1)));
    // Front face: the minimum corner of the face maps to the texture origin.
    let (u, v) = c.get_uv(&Vec3::new(-fx(1), -fx(1), fx(1)), &Vec3::new(0, 0, fx(1)));
    assert_eq!((u, v), (0, 0));
    let (u2, v2) = c.get_uv(&Vec3::new(fx(1), fx(1), fx(1)), &Vec3::new(0, 0, fx(1)));
    assert_eq!((u2, v2), (SCALE, SCALE));
    // Right face maps z and y.
    let (u3, v3) = c.get_uv(&Vec3::new(fx(1), 0, 0), &Vec3::new(fx(1), 0, 0));
    assert_eq!((u3, v3), (500_000, 500_000));
}

#[test]
fn orbit_angles_wrap_and_clamp() {
    // The yaw wraps within a full turn, keeping the dividend's sign.
    assert_eq!(orbit_angles(6_000_000, 0, 1_000_000, 0), (716_814, 0));
    assert_eq!(orbit_angles(-6_000_000, 0, -1_000_000, 0), (-716_814, 0));
    assert_eq!(orbit_angles(100_000, 0, 200_000, 0), (300_000, 0));
    // The pitch clamps a tenth of a radian away from either pole.
    assert_eq!(orbit_angles(0, 1_400_000, 0, 200_000), (0, 1_470_796));
    assert_eq!(orbit_angles(0, -1_400_000, 0, -200_000), (0, -1_470_796));
}

#[test]
fn refract_total_internal_reflection() {
    // A shallow ray entering a dense medium reflects instead of refracting.
    let r = refract(
        &Vec3::new(-800_000, 0, -600_000),
        &Vec3::new(0, 0, fx(1)),
        2_000_000,
    );
    assert_eq!(r, Vec3::new(-800_000, 0, 600_000));
}

#[test]
fn pure_specular_highlight_shows_the_light() {
    let store = TextureStore::new();
    let light = Light::new(Vec3::new(0, 0, fx(10)), Color::new(50, 60, 70), fx(1));
    let shiny = Material::new(Color::new(255, 255, 255), 1, [0, SCALE, 0, 0], SCALE, None, false);
    let objects: Vec<Primitive> = vec![Primitive::Sphere(Sphere::new(
        Vec3::new(0, 0, 0),
        fx(1),
        shiny,
    ))];
    let c = cast_ray(
        &Vec3::new(0, 0, fx(5)),
        &Vec3::new(0, 0, -fx(1)),
        &objects,
        &light,
        &store,
        0,
    );
    // Head on, the reflected light direction meets the view direction
    // exactly, so the highlight carries the light's own color.
    assert_eq!(c, Color::new(50, 60, 70));
}

#[test]
fn degenerate_camera_basis_is_inert() {
    let cam = Camera::new(
        Vec3::new(0, 0, 0),
        Vec3::new(0, 0, 0),
        Vec3::new(0, fx(1), 0),
        577_000,
        SCALE,
        100_000,
        fx(100),
    );
    assert_eq!(cam.view_direction(), Vec3::new(0, 0, 0));
    assert_eq!(cam.basis_change(&Vec3::new(0, 0, -fx(1))), Vec3::new(0, 0, 0));
}

#[test]
fn frustum_culls_sideways_sphere() {
    let cam = Camera::new(
        Vec3::new(0, 0, fx(5)),
        Vec3::new(0, 0, 0),
        Vec3::new(0, fx(1), 0),
        577_000,
        1_333_333,
        100_000,
        fx(100),
    );
    let frustum = Frustum::new(&cam);
    assert!(!frustum.is_sphere_in_frustum(Vec3::new(fx(1000), 0, 0), fx(1)));
    assert!(!frustum.is_sphere_in_frustum(Vec3::new(0, fx(1000), 0), fx(1)));
}

#[test]
fn cube_uv_back_face_uses_front_mapping() {
    // The face table tests the normal's magnitude along z first, so a
    // backward normal still selects the front mapping.
    let c = Cube::new(Vec3::new(0, 0, 0), fx(2), plain_material(Color::new(1, 1, 1)));
    let (u, v) = c.get_uv(&Vec3::new(-fx(1), -fx(1), -fx(1)), &Vec3::new(0, 0, -fx(1)));
    assert_eq!((u, v), (0, 0));
}

#[test]
fn orbit_eye_reconstruction() {
    // Yaw and pitch of zero: the eye sits one radius along the x axis.
    let eye = orbit_eye(Vec3::new(fx(1), fx(2), fx(3)), fx(5), 0, SCALE, 0, SCALE);
    assert_eq!(eye, Vec3::new(fx(6), fx(2), fx(3)));
    // Pitch straight down: the eye drops one radius below the center.
    let eye2 = orbit_eye(Vec3::new(0, 0, 0), fx(5), 0, SCALE, SCALE, 0);
    assert_eq!(eye2, Vec3::new(0, -fx(5), 0));
}

#[test]
fn orbit_preserves_radius_within_tolerance() {
    // The circular values of yaw 0.7 and pitch 0.3, rounded to fixed point.
    let sy = 644_218;
    let cy = 764_842;
    let sp = 295_520;
    let cp = 955_336;
    let center = Vec3::new(fx(1), -fx(2), fx(3));
    let radius = fx(5);
    let eye = raytracer::camera::orbit_eye(center, radius, sy, cy, sp, cp);
    let m = eye.sub(&center).magnitude();
    let tolerance = 2 * (radius / 100_000) + 30;
    assert!((m - radius).abs() <= tolerance);
}
