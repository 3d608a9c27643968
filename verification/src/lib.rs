//! A Whitted-style recursive ray tracer over a fixed-point scalar model.
//!
//! Scene geometry (axis-aligned cubes and spheres), materials, a point
//! light, a camera and a view frustum are all expressed in signed 64-bit
//! fixed-point scalars (one unit = `fixed::SCALE` raw ticks), so that every
//! stage of the rendering pipeline — primitive intersection, recursive
//! shading with reflection and refraction, shadow tests, frustum culling and
//! per-pixel ray generation — carries a precise contract.

pub mod camera;
pub mod cast_ray;
pub mod color;
pub mod cube;
pub mod fixed;
pub mod framebuffer;
pub mod frustum;
pub mod grid;
pub mod light;
pub mod material;
pub mod primitive;
pub mod render;
pub mod ray_intersect;
pub mod sphere;
pub mod trig;
pub mod vec3;
