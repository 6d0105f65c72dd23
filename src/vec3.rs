use vstd::prelude::*;

use crate::scalar::Scalar;

verus! {

/// A point or direction in space, with three components.
#[derive(Clone, Copy, Debug)]
pub struct Vec3<R> {
    pub x: R,
    pub y: R,
    pub z: R,
}

impl<R: Scalar> Vec3<R> {
    pub open spec fn spec_add(self, rhs: Self) -> Self {
        Vec3 { x: self.x.spec_add(rhs.x), y: self.y.spec_add(rhs.y), z: self.z.spec_add(rhs.z) }
    }

    pub open spec fn spec_sub(self, rhs: Self) -> Self {
        Vec3 { x: self.x.spec_sub(rhs.x), y: self.y.spec_sub(rhs.y), z: self.z.spec_sub(rhs.z) }
    }

    /// Every component multiplied by `k`.
    pub open spec fn spec_scale(self, k: R) -> Self {
        Vec3 { x: self.x.spec_mul(k), y: self.y.spec_mul(k), z: self.z.spec_mul(k) }
    }

    /// The dot product, summed from the first component to the last.
    pub open spec fn spec_dot(self, rhs: Self) -> R {
        self.x.spec_mul(rhs.x).spec_add(self.y.spec_mul(rhs.y)).spec_add(self.z.spec_mul(rhs.z))
    }

    /// The vector scaled by the inverse of its length.
    pub open spec fn spec_normalized(self) -> Self {
        self.spec_scale(R::spec_ratio(1, 1).spec_div(self.spec_dot(self).spec_sqrt()))
    }

    pub fn new(x: R, y: R, z: R) -> (r: Self)
        ensures
            r.x == x,
            r.y == y,
            r.z == z,
    {
        Vec3 { x, y, z }
    }

    pub fn add(&self, rhs: &Self) -> (r: Self)
        ensures
            r == self.spec_add(*rhs),
    {
        Vec3 { x: self.x.add(rhs.x), y: self.y.add(rhs.y), z: self.z.add(rhs.z) }
    }

    pub fn sub(&self, rhs: &Self) -> (r: Self)
        ensures
            r == self.spec_sub(*rhs),
    {
        Vec3 { x: self.x.sub(rhs.x), y: self.y.sub(rhs.y), z: self.z.sub(rhs.z) }
    }

    pub fn scale(&self, k: R) -> (r: Self)
        ensures
            r == self.spec_scale(k),
    {
        Vec3 { x: self.x.mul(k), y: self.y.mul(k), z: self.z.mul(k) }
    }

    pub fn dot(&self, rhs: &Self) -> (r: R)
        ensures
            r == self.spec_dot(*rhs),
    {
        let xx = self.x.mul(rhs.x);
        let yy = self.y.mul(rhs.y);
        let zz = self.z.mul(rhs.z);
        xx.add(yy).add(zz)
    }

    /// The unit vector in the direction of `self`; `self` must not be zero.
    pub fn normalized(&self) -> (r: Self)
        ensures
            r == self.spec_normalized(),
    {
        let one = R::ratio(1, 1);
        let len = self.dot(self).sqrt();
        self.scale(one.div(len))
    }
}

} // verus!
