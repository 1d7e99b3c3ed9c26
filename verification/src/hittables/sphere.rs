//! Which root of a sphere's quadratic a ray reports.
//!
//! A ray meets the sphere where `|O + t D - C|^2 = r^2`. With `h = D.(C - O)`,
//! `a = D.D` and `c = |C - O|^2 - r^2` the discriminant is `h^2 - a c`, and
//! the roots are `(h - sqrt(discriminant)) / a`, where the ray enters, and
//! `(h + sqrt(discriminant)) / a`, where it leaves.

use vstd::prelude::*;
use crate::degenerate::above_tolerance;
use crate::degenerate::Degenerate;
use crate::interval::Interval;
use crate::scalar::Scalar;
use crate::vec3::Point3;

verus! {

/// A sphere. `M` is the handle of its material.
pub struct Sphere<M> {
    pub center: Point3,
    /// Above the tolerance.
    pub radius: Scalar,
    pub material: M,
}

impl<M> Sphere<M> {
    /// The sphere of the given centre and radius.
    pub fn new(center: Point3, radius: Scalar, material: M) -> (sphere: Sphere<M>)
        requires
            Scalar::tolerance().lt(radius),
        ensures
            sphere.center == center,
            sphere.radius == radius,
            sphere.material == material,
    {
        Sphere { center, radius, material }
    }
}

/// The parameter that a ray reports of a sphere: none where the
/// discriminant is below zero; else the root of entry where it lies strictly
/// inside `ray_t`; else the root of exit where that does.
pub open spec fn sphere_hit(discriminant: Scalar, entry: Scalar, exit: Scalar, ray_t: Interval) -> Option<
    Scalar,
> {
    if discriminant.lt(Scalar::zero()) {
        None
    } else if ray_t.surrounds(entry) {
        Some(entry)
    } else if ray_t.surrounds(exit) {
        Some(exit)
    } else {
        None
    }
}

/// Chooses between the two roots.
pub fn nearest_root(discriminant: Scalar, entry: Scalar, exit: Scalar, ray_t: &Interval) -> (t: Option<Scalar>)
    ensures
        t == sphere_hit(discriminant, entry, exit, *ray_t),
{
    if discriminant.lt(Scalar::zero()) {
        None
    } else if ray_t.surrounds(entry) {
        Some(entry)
    } else if ray_t.surrounds(exit) {
        Some(exit)
    } else {
        None
    }
}

/// Accepts a radius above the tolerance.
pub fn validate(radius: Scalar) -> (r: Result<(), Degenerate>)
    ensures
        r is Ok <==> Scalar::tolerance().lt(radius),
        r is Err ==> r == Err::<(), Degenerate>(Degenerate::Radius),
{
    above_tolerance(radius, Degenerate::Radius)
}

/// The parameter reported lies strictly inside the range, and it is the
/// lower of the two roots whenever both lie there.
pub proof fn lemma_sphere_hit_is_nearest(discriminant: Scalar, entry: Scalar, exit: Scalar, ray_t: Interval)
    requires
        entry.le(exit),
    ensures
        sphere_hit(discriminant, entry, exit, ray_t) matches Some(t) ==> {
            &&& ray_t.surrounds(t)
            &&& t == entry || t == exit
            &&& ray_t.surrounds(entry) ==> t == entry
            &&& t.le(exit)
        },
{
}

} // verus!
