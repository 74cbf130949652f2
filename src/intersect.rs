use vstd::prelude::*;

use crate::color::Color;

verus! {

/// The surface description of a primitive: a flat base color, no lighting.
#[derive(Clone, Copy, Debug, PartialEq, Eq, Structural)]
pub struct Material {
    pub diffuse: Color,
}

/// Order key that stands for an infinite distance.
pub const FAR: u32 = 0xffff_ffff;

/// What a primitive reports for one ray.
///
/// `distance` is an order key of the hit distance: keys compare as the
/// distances do. For a non-negative `f32` its IEEE bit pattern is such a key.
/// Geometry (hit point, normal) is not needed to pick a color and is left to
/// whoever computes the intersection.
#[derive(Clone, Copy, Debug, PartialEq, Eq, Structural)]
pub struct Intersect {
    pub is_intersecting: bool,
    pub distance: u32,
    pub material: Material,
}

impl Intersect {
    /// True when this record can take part in nearest-hit selection: it is a
    /// hit, and its distance is finite.
    pub open spec fn counts(self) -> bool {
        self.is_intersecting && self.distance < FAR
    }

    /// The no-hit record: not intersecting, at infinite distance.
    pub fn empty() -> (r: Intersect)
        ensures
            !r.is_intersecting,
            r.distance == FAR,
            r.material.diffuse == (Color { r: 0, g: 0, b: 0 }),
    {
        Intersect {
            is_intersecting: false,
            distance: FAR,
            material: Material { diffuse: Color { r: 0, g: 0, b: 0 } },
        }
    }

    /// A hit at the given distance key with the given material.
    pub fn new(distance: u32, material: Material) -> (r: Intersect)
        ensures
            r.is_intersecting,
            r.distance == distance,
            r.material == material,
    {
        Intersect { is_intersecting: true, distance, material }
    }
}

} // verus!
