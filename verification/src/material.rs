//! Surface materials and textures.
//!
//! A texture is an immutable row-major pixel rectangle.  Textures live in a
//! `TextureStore` built once at startup, and a material refers to its texture
//! by store handle, so many primitives share one pixel buffer.  A material
//! carries a flat diffuse color, a specular exponent, the four albedo
//! weights (diffuse, specular, reflective, transparent) and a refractive
//! index.

use vstd::prelude::*;
use crate::color::Color;
use crate::fixed::{SCALE, tdiv, fx_clamp_spec, fx_clamp, lemma_div_bound};
use vstd::arithmetic::mul::{lemma_mul_inequality, lemma_mul_nonnegative, lemma_mul_upper_bound};

verus! {

/// An immutable rectangle of pixels, row-major, origin at the top left.
pub struct Texture {
    pub data: Vec<Color>,
    pub width: usize,
    pub height: usize,
}

impl Texture {
    /// A texture is well-formed when its buffer holds exactly
    /// `width * height` pixels of a nonempty rectangle of at most 30000 texels
    /// per side.
    pub open spec fn wf(&self) -> bool {
        &&& 1 <= self.width <= 30_000
        &&& 1 <= self.height <= 30_000
        &&& self.data@.len() == self.width * self.height
    }

    /// Build a texture from a row-major pixel buffer.
    pub fn new(data: Vec<Color>, width: usize, height: usize) -> (t: Texture)
        requires
            1 <= width <= 30_000,
            1 <= height <= 30_000,
            data@.len() == width * height,
        ensures
            t.wf(),
            t.data@ == data@,
            t.width == width,
            t.height == height,
    {
        Texture { data, width, height }
    }

    /// The pixel at column `x` of row `y`.
    pub fn get_color(&self, x: usize, y: usize) -> (c: Color)
        requires
            self.wf(),
            x < self.width,
            y < self.height,
        ensures
            c == self.data@[y * self.width + x],
    {
        proof {
            lemma_mul_inequality(y as int + 1, self.height as int, self.width as int);
            lemma_mul_upper_bound(self.height as int, 30_000, self.width as int, 30_000);
            lemma_mul_nonnegative(y as int, self.width as int);
            assert((y + 1) * self.width == y * self.width + self.width) by (nonlinear_arith);
        }
        self.data[y * self.width + x]
    }

    /// The texel a pair of texture coordinates in `[0, 1]` selects: each
    /// coordinate is clamped, scaled by the last valid index of its axis and
    /// truncated.
    pub open spec fn sample_spec(&self, u: int, v: int) -> Color
        recommends
            self.wf(),
    {
        let x = tdiv(fx_clamp_spec(u, 0, SCALE as int) * (self.width - 1), SCALE as int);
        let y = tdiv(fx_clamp_spec(v, 0, SCALE as int) * (self.height - 1), SCALE as int);
        self.data@[y * self.width + x]
    }

    /// Look a texel up by texture coordinates in `[0, 1]`; coordinates
    /// outside that range are clamped to the border.
    pub fn sample(&self, u: i64, v: i64) -> (c: Color)
        requires
            self.wf(),
        ensures
            c == self.sample_spec(u as int, v as int),
    {
        let uu: i64 = fx_clamp(u, 0, SCALE);
        let vv: i64 = fx_clamp(v, 0, SCALE);
        let wi: i64 = (self.width - 1) as i64;
        let hi: i64 = (self.height - 1) as i64;
        proof {
            lemma_mul_nonnegative(uu as int, wi as int);
            lemma_mul_nonnegative(vv as int, hi as int);
            lemma_mul_upper_bound(uu as int, SCALE as int, wi as int, wi as int);
            lemma_mul_upper_bound(vv as int, SCALE as int, hi as int, hi as int);
            lemma_div_bound(uu as int * wi as int, SCALE as int, wi as int);
            lemma_div_bound(vv as int * hi as int, SCALE as int, hi as int);
        }
        let xq: i128 = crate::fixed::div_i128((uu as i128) * (wi as i128), 1_000_000);
        let yq: i128 = crate::fixed::div_i128((vv as i128) * (hi as i128), 1_000_000);
        let x: usize = xq as usize;
        let y: usize = yq as usize;
        proof {
            lemma_mul_inequality(y as int + 1, self.height as int, self.width as int);
            lemma_mul_upper_bound(self.height as int, 30_000, self.width as int, 30_000);
            lemma_mul_nonnegative(y as int, self.width as int);
            assert((y + 1) * self.width == y * self.width + self.width) by (nonlinear_arith);
            let wh: int = (self.width as int) * (self.height as int);
            assert((y as int * self.width as int + x as int) < wh) by (nonlinear_arith)
                requires
                    y as int <= self.height as int - 1,
                    x as int <= self.width as int - 1,
                    self.width as int >= 1,
                    self.height as int >= 1,
                    wh == (self.width as int) * (self.height as int),
            ;
        }
        self.data[y * self.width + x]
    }
}

/// All textures of a scene, owned in one place and addressed by handle.
pub struct TextureStore {
    pub textures: Vec<Texture>,
}

impl TextureStore {
    /// Every texture of the store is well-formed.
    pub open spec fn wf(&self) -> bool {
        forall|i: int| 0 <= i < self.textures@.len() ==> (#[trigger] self.textures@[i]).wf()
    }

    /// An empty store.
    pub fn new() -> (s: TextureStore)
        ensures
            s.wf(),
            s.textures@.len() == 0,
    {
        TextureStore { textures: Vec::new() }
    }

    /// Add a texture and hand back its handle.
    pub fn push(&mut self, t: Texture) -> (h: usize)
        requires
            t.wf(),
            old(self).wf(),
        ensures
            final(self).wf(),
            h == old(self).textures@.len(),
            final(self).textures@ == old(self).textures@.push(t),
    {
        let h = self.textures.len();
        self.textures.push(t);
        h
    }

    /// The number of textures held.
    pub fn len(&self) -> (n: usize)
        ensures
            n == self.textures@.len(),
    {
        self.textures.len()
    }
}

/// Surface reflectance parameters.  The four albedo weights are the diffuse,
/// specular, reflective and transparent contributions; the constructor clamps
/// each into `[0, 1]` and the refractive index into its supported range, and
/// every weight of a well-formed material stays there.
#[derive(Clone, Copy, Debug)]
pub struct Material {
    pub diffuse: Color,
    pub specular: u32,
    pub albedo: [i64; 4],
    pub refractive_index: i64,
    pub texture: Option<usize>,
    pub has_texture: bool,
}

impl Material {
    /// Albedo weights in `[0, 1]` and a positive refractive index of at most
    /// one hundred.
    pub open spec fn wf(&self) -> bool {
        &&& 0 <= self.albedo@[0] <= SCALE
        &&& 0 <= self.albedo@[1] <= SCALE
        &&& 0 <= self.albedo@[2] <= SCALE
        &&& 0 <= self.albedo@[3] <= SCALE
        &&& 0 < self.refractive_index <= 100 * SCALE
    }

    /// Build a material.  Out-of-range albedo weights are clamped into
    /// `[0, 1]` and the refractive index into `(0, 100]`.
    pub fn new(
        diffuse: Color,
        specular: u32,
        albedo: [i64; 4],
        refractive_index: i64,
        texture: Option<usize>,
        has_texture: bool,
    ) -> (m: Material)
        requires
            refractive_index > 0,
        ensures
            m.wf(),
            m.diffuse == diffuse,
            m.specular == specular,
            m.albedo@[0] == fx_clamp_spec(albedo@[0] as int, 0, SCALE as int),
            m.albedo@[1] == fx_clamp_spec(albedo@[1] as int, 0, SCALE as int),
            m.albedo@[2] == fx_clamp_spec(albedo@[2] as int, 0, SCALE as int),
            m.albedo@[3] == fx_clamp_spec(albedo@[3] as int, 0, SCALE as int),
            m.refractive_index == fx_clamp_spec(refractive_index as int, 1, 100 * SCALE as int),
            m.texture == texture,
            m.has_texture == has_texture,
    {
        Material {
            diffuse,
            specular,
            albedo: [
                fx_clamp(albedo[0], 0, SCALE),
                fx_clamp(albedo[1], 0, SCALE),
                fx_clamp(albedo[2], 0, SCALE),
                fx_clamp(albedo[3], 0, SCALE),
            ],
            refractive_index: fx_clamp(refractive_index, 1, 100 * SCALE),
            texture,
            has_texture,
        }
    }

    /// The inert black material as a specification value.
    pub open spec fn black_spec() -> Material {
        Material {
            diffuse: Color { r: 0, g: 0, b: 0 },
            specular: 0,
            albedo: [0, 0, 0, 0],
            refractive_index: SCALE,
            texture: None,
            has_texture: false,
        }
    }

    /// The inert black material: no contribution from any shading term.
    pub fn black() -> (m: Material)
        ensures
            m == Material::black_spec(),
            m.wf(),
    {
        Material {
            diffuse: Color::new(0, 0, 0),
            specular: 0,
            albedo: [0, 0, 0, 0],
            refractive_index: SCALE,
            texture: None,
            has_texture: false,
        }
    }

    /// The diffuse color the shading terms see: the texel under the given
    /// texture coordinates when the material samples a texture the store
    /// holds, the flat diffuse color otherwise.
    #[verifier::opaque]
    pub open spec fn diffuse_color_spec(&self, store: &TextureStore, u: int, v: int) -> Color {
        if self.has_texture && (self.texture matches Some(h) && h < store.textures@.len()) {
            store.textures@[self.texture->Some_0 as int].sample_spec(u, v)
        } else {
            self.diffuse
        }
    }

    /// The diffuse color under texture coordinates `(u, v)`.
    pub fn get_diffuse_color(&self, store: &TextureStore, u: i64, v: i64) -> (c: Color)
        requires
            store.wf(),
        ensures
            c == self.diffuse_color_spec(store, u as int, v as int),
    {
        proof {
            reveal(Material::diffuse_color_spec);
        }
        if self.has_texture {
            match self.texture {
                Some(h) => {
                    if h < store.len() {
                        let t = &store.textures[h];
                        t.sample(u, v)
                    } else {
                        self.diffuse
                    }
                },
                None => self.diffuse,
            }
        } else {
            self.diffuse
        }
    }
}

} // verus!
