//! The scene's single point light.

use vstd::prelude::*;
use crate::color::Color;
use crate::fixed::SCALE;
use crate::vec3::{Vec3, bounded};

verus! {

/// A point light: a position, a light color and a fixed-point intensity.
#[derive(Clone, Copy, Debug)]
pub struct Light {
    pub position: Vec3,
    pub color: Color,
    pub intensity: i64,
}

impl Light {
    /// A light is well-formed when it sits inside the supported world volume
    /// and its intensity is a nonnegative factor of at most one hundred.
    pub open spec fn wf(&self) -> bool {
        &&& bounded(self.position@, 1_000_000_000)
        &&& 0 <= self.intensity <= 100 * SCALE
    }

    /// Build a light.
    pub fn new(position: Vec3, color: Color, intensity: i64) -> (l: Light)
        requires
            bounded(position@, 1_000_000_000),
            0 <= intensity <= 100 * SCALE,
        ensures
            l == (Light { position, color, intensity }),
            l.wf(),
    {
        Light { position, color, intensity }
    }
}

} // verus!
