use vstd::prelude::*;

use crate::material::Intersection;
use crate::scalar::Scalar;
use crate::vec3::Vec3;

verus! {

/// What every primitive answers for a ray `origin + direction * t`, `t >= 0`.
///
/// Both queries are pure. They agree: the detailed query hits exactly when
/// the distance query does, and then at the point that distance gives,
/// computed as `origin + direction.scale(t)`.
pub trait Shape<R: Scalar> {
    /// The distance `t` that `intersect_dist` reports for the ray, if any.
    spec fn spec_intersect_dist(&self, origin: Vec3<R>, direction: Vec3<R>) -> Option<R>;

    /// The hit record that `intersect` reports for the ray, if any.
    spec fn spec_intersect(&self, origin: Vec3<R>, direction: Vec3<R>) -> Option<Intersection<R>>;

    /// The distance along the ray to the nearest hit, as a multiple of `direction`.
    fn intersect_dist(&self, origin: &Vec3<R>, direction: &Vec3<R>) -> (r: Option<R>)
        ensures
            r == self.spec_intersect_dist(*origin, *direction),
    ;

    /// The full record of the hit that `intersect_dist` reports.
    fn intersect(&self, origin: &Vec3<R>, direction: &Vec3<R>) -> (r: Option<Intersection<R>>)
        ensures
            r == self.spec_intersect(*origin, *direction),
            r is Some <==> self.spec_intersect_dist(*origin, *direction) is Some,
            r is Some ==> r->0.point == origin.spec_add(
                direction.spec_scale(self.spec_intersect_dist(*origin, *direction)->0),
            ),
    ;
}

} // verus!
