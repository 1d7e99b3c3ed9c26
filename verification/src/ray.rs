//! Rays.

use vstd::prelude::*;
use crate::degenerate::Degenerate;
use crate::vec3::Direction;
use crate::vec3::Point3;

verus! {

/// The half-line from `origin` along `direction`: the points
/// `origin + t * direction`. The direction is a unit vector.
#[derive(Clone, Copy, Debug)]
pub struct Ray {
    pub origin: Point3,
    pub direction: Direction,
}

impl Ray {
    /// Accepts the direction of a ray unless it is near zero.
    pub fn validate(direction: &Direction) -> (r: Result<(), Degenerate>)
        ensures
            r == if direction.near_zero() {
                Err::<(), Degenerate>(Degenerate::RayDirection)
            } else {
                Ok::<(), Degenerate>(())
            },
    {
        if direction.near_zero() {
            Err(Degenerate::RayDirection)
        } else {
            Ok(())
        }
    }

    /// The ray from `origin` along `unit`, the direction `direction` scaled
    /// to the length one.
    pub fn new(origin: Point3, direction: &Direction, unit: Direction) -> (ray: Ray)
        requires
            !direction.near_zero(),
        ensures
            ray.origin == origin,
            ray.direction == unit,
    {
        Ray { origin, direction: unit }
    }
}

} // verus!
