use vstd::prelude::*;

use crate::scalar::Scalar;
use crate::vec3::Vec3;

verus! {

/// A color with red, green and blue components.
#[derive(Clone, Copy, Debug)]
pub struct Color<R> {
    pub r: R,
    pub g: R,
    pub b: R,
}

/// How a surface looks. The geometry only stores and copies it.
#[derive(Clone, Copy, Debug)]
pub struct Material<R> {
    pub diffuse_color: Color<R>,
    pub ambient_color: Color<R>,
    pub specular_color: Color<R>,
    pub shininess: R,
    pub reflectivity: R,
}

/// The details of one hit: the surface's material, where the ray met it, and
/// the surface normal there.
#[derive(Clone, Copy, Debug)]
pub struct Intersection<R> {
    pub material: Material<R>,
    pub point: Vec3<R>,
    pub normal: Vec3<R>,
}

impl<R: Scalar> Color<R> {
    pub open spec fn spec_black() -> Self {
        let zero = R::spec_ratio(0, 1);
        Color { r: zero, g: zero, b: zero }
    }

    /// The color with every component zero.
    pub fn black() -> (c: Self)
        ensures
            c == Self::spec_black(),
    {
        let zero = R::ratio(0, 1);
        Color { r: zero, g: zero, b: zero }
    }
}

} // verus!
