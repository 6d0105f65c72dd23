use vstd::prelude::*;

use crate::material::{Color, Intersection, Material};
use crate::scalar::Scalar;
use crate::shape::Shape;
use crate::vec3::Vec3;

verus! {

/// The smallest approach rate that counts as a front-face hit is
/// `1 / EPSILON_DEN`.
pub const EPSILON_DEN: i64 = 1_000_000;

/// Shininess of the default material.
pub const DEFAULT_SHININESS: i64 = 15;

/// Reflectivity of the default material, in tenths.
pub const DEFAULT_REFLECTIVITY_TENTHS: i64 = 1;

/// An unbounded flat surface through `point`, visible from the side its unit
/// `normal` points to.
pub struct Plane<R> {
    point: Vec3<R>,
    normal: Vec3<R>,
    material: Material<R>,
}

/// The threshold the approach rate must exceed for a hit.
pub open spec fn epsilon<R: Scalar>() -> R {
    R::spec_ratio(1, EPSILON_DEN)
}

/// The material `Plane::new` gives a plane of diffuse color `c`.
pub open spec fn default_material<R: Scalar>(c: Color<R>) -> Material<R> {
    Material {
        diffuse_color: c,
        ambient_color: Color::spec_black(),
        specular_color: Color::spec_black(),
        shininess: R::spec_ratio(DEFAULT_SHININESS, 1),
        reflectivity: R::spec_ratio(DEFAULT_REFLECTIVITY_TENTHS, 10),
    }
}

impl<R: Scalar> Plane<R> {
    pub closed spec fn spec_point(&self) -> Vec3<R> {
        self.point
    }

    pub closed spec fn spec_normal(&self) -> Vec3<R> {
        self.normal
    }

    pub closed spec fn spec_material(&self) -> Material<R> {
        self.material
    }

    /// The stored normal reversed.
    pub open spec fn neg_normal(&self) -> Vec3<R> {
        self.spec_normal().spec_scale(R::spec_ratio(-1i64, 1))
    }

    /// How fast a ray of this direction approaches the front face.
    pub open spec fn denom(&self, direction: Vec3<R>) -> R {
        self.neg_normal().spec_dot(direction)
    }

    /// The ray parameter where the line of the ray meets the plane.
    pub open spec fn solution(&self, origin: Vec3<R>, direction: Vec3<R>) -> R {
        self.spec_point().spec_sub(origin).spec_dot(self.neg_normal()).spec_div(
            self.denom(direction),
        )
    }

    /// The hit distance: the solution, for a ray that approaches the front
    /// face faster than `epsilon` and meets the plane at `t >= 0`.
    pub open spec fn hit_distance(&self, origin: Vec3<R>, direction: Vec3<R>) -> Option<R> {
        if self.denom(direction).spec_gt(epsilon()) {
            let t = self.solution(origin, direction);
            if t.spec_ge(R::spec_ratio(0, 1)) {
                Some(t)
            } else {
                None
            }
        } else {
            None
        }
    }

    /// A plane through `point` facing along `normal`, with the default
    /// material of diffuse color `c`: black ambient and specular colors,
    /// shininess 15 and reflectivity 0.1. `normal` must not be zero.
    pub fn new(point: Vec3<R>, normal: Vec3<R>, c: Color<R>) -> (p: Self)
        ensures
            p.spec_point() == point,
            p.spec_normal() == normal.spec_normalized(),
            p.spec_material() == default_material(c),
    {
        let black = Color::black();
        let material = Material {
            diffuse_color: c,
            ambient_color: black,
            specular_color: black,
            shininess: R::ratio(DEFAULT_SHININESS, 1),
            reflectivity: R::ratio(DEFAULT_REFLECTIVITY_TENTHS, 10),
        };
        Plane { point, normal: normal.normalized(), material }
    }

    /// A plane through `point` facing along `normal`, with the given
    /// material. `normal` must not be zero.
    pub fn from_material(point: Vec3<R>, normal: Vec3<R>, material: Material<R>) -> (p: Self)
        ensures
            p.spec_point() == point,
            p.spec_normal() == normal.spec_normalized(),
            p.spec_material() == material,
    {
        Plane { point, normal: normal.normalized(), material }
    }

    /// The hit distance, computed once for both queries.
    fn solve(&self, origin: &Vec3<R>, direction: &Vec3<R>) -> (r: Option<R>)
        ensures
            r == self.hit_distance(*origin, *direction),
    {
        let neg_norm = self.normal.scale(R::ratio(-1, 1));
        let denom = neg_norm.dot(direction);
        if denom.gt(R::ratio(1, EPSILON_DEN)) {
            let p0l0 = self.point.sub(origin);
            let t = p0l0.dot(&neg_norm).div(denom);
            if t.ge(R::ratio(0, 1)) {
                Some(t)
            } else {
                None
            }
        } else {
            None
        }
    }
}

impl<R: Scalar> Shape<R> for Plane<R> {
    open spec fn spec_intersect_dist(&self, origin: Vec3<R>, direction: Vec3<R>) -> Option<R> {
        self.hit_distance(origin, direction)
    }

    open spec fn spec_intersect(&self, origin: Vec3<R>, direction: Vec3<R>) -> Option<
        Intersection<R>,
    > {
        match self.hit_distance(origin, direction) {
            Some(t) => Some(
                Intersection {
                    material: self.spec_material(),
                    point: origin.spec_add(direction.spec_scale(t)),
                    normal: self.spec_normal(),
                },
            ),
            None => None,
        }
    }

    fn intersect_dist(&self, origin: &Vec3<R>, direction: &Vec3<R>) -> (r: Option<R>) {
        self.solve(origin, direction)
    }

    fn intersect(&self, origin: &Vec3<R>, direction: &Vec3<R>) -> (r: Option<Intersection<R>>) {
        match self.solve(origin, direction) {
            Some(t) => {
                let q = origin.add(&direction.scale(t));
                Some(Intersection { material: self.material, point: q, normal: self.normal })
            },
            None => None,
        }
    }
}

/// The two queries agree for every ray: `intersect` hits exactly when
/// `intersect_dist` does, and its point is `origin + direction * t` for the
/// distance `t` that `intersect_dist` reports.
pub proof fn lemma_queries_agree<R: Scalar>(plane: Plane<R>, origin: Vec3<R>, direction: Vec3<R>)
    ensures
        plane.spec_intersect(origin, direction) is Some <==> plane.spec_intersect_dist(
            origin,
            direction,
        ) is Some,
        plane.spec_intersect(origin, direction) is Some ==> plane.spec_intersect(
            origin,
            direction,
        )->0.point == origin.spec_add(
            direction.spec_scale(plane.spec_intersect_dist(origin, direction)->0),
        ),
{
}

/// A ray whose approach rate toward the front face, `dot(-normal, direction)`,
/// is not above `epsilon` misses, wherever it starts: back faces and rays
/// parallel to the plane are never hit.
pub proof fn lemma_back_face_misses<R: Scalar>(
    plane: Plane<R>,
    origin: Vec3<R>,
    direction: Vec3<R>,
)
    requires
        !plane.denom(direction).spec_gt(epsilon()),
    ensures
        plane.spec_intersect_dist(origin, direction) is None,
        plane.spec_intersect(origin, direction) is None,
{
}

/// A ray whose line meets the plane at a parameter that is not `>= 0`
/// misses, even when it approaches the front face; and every distance that is
/// reported is `>= 0`.
pub proof fn lemma_behind_origin_misses<R: Scalar>(
    plane: Plane<R>,
    origin: Vec3<R>,
    direction: Vec3<R>,
)
    ensures
        !plane.solution(origin, direction).spec_ge(R::spec_ratio(0, 1)) ==> plane.spec_intersect_dist(
            origin,
            direction,
        ) is None && plane.spec_intersect(origin, direction) is None,
        plane.spec_intersect_dist(origin, direction) is Some ==> plane.spec_intersect_dist(
            origin,
            direction,
        )->0.spec_ge(R::spec_ratio(0, 1)),
{
}

/// Every hit on a plane reports the plane's stored normal and material,
/// whatever the ray's direction.
pub proof fn lemma_hit_normal_is_plane_normal<R: Scalar>(
    plane: Plane<R>,
    origin: Vec3<R>,
    direction: Vec3<R>,
)
    ensures
        plane.spec_intersect(origin, direction) is Some ==> plane.spec_intersect(
            origin,
            direction,
        )->0.normal == plane.spec_normal() && plane.spec_intersect(origin, direction)->0.material
            == plane.spec_material(),
{
}

/// A plane built from a normal `n` reports `n` normalized on every hit,
/// not `n` itself.
pub proof fn lemma_hit_normal_is_normalized<R: Scalar>(
    plane: Plane<R>,
    n: Vec3<R>,
    origin: Vec3<R>,
    direction: Vec3<R>,
)
    requires
        plane.spec_normal() == n.spec_normalized(),
    ensures
        plane.spec_intersect(origin, direction) is Some ==> plane.spec_intersect(
            origin,
            direction,
        )->0.normal == n.spec_normalized(),
{
}

} // verus!
