//! Whether a point of a plane lies in a disk.

use vstd::prelude::*;
use crate::degenerate::Degenerate;
use crate::hittables::plane::plane_hit;
use crate::hittables::plane::crosses;
use crate::interval::Interval;
use crate::scalar::Scalar;
use crate::vec3::Direction;

verus! {

/// Whether a point lies in a disk: `distance_squared`, the sum of the
/// squares of its two planar coordinates, is not above `radius_squared`.
pub open spec fn spec_is_interior(distance_squared: Scalar, radius_squared: Scalar) -> bool {
    !distance_squared.gt(radius_squared)
}

/// Whether a ray meets a disk within `ray_t`: it meets the plane, and the
/// point of the meeting lies in the disk.
pub open spec fn disk_hit(
    denominator: Scalar,
    t: Scalar,
    distance_squared: Scalar,
    radius_squared: Scalar,
    ray_t: Interval,
) -> bool {
    plane_hit(denominator, t, ray_t) && spec_is_interior(distance_squared, radius_squared)
}

/// Whether a point lies in a disk.
#[verifier::when_used_as_spec(spec_is_interior)]
pub fn is_interior(distance_squared: Scalar, radius_squared: Scalar) -> (r: bool)
    ensures
        r == spec_is_interior(distance_squared, radius_squared),
{
    !distance_squared.gt(radius_squared)
}

/// Whether a ray meets a disk within `ray_t`.
pub fn crosses_disk(
    denominator: Scalar,
    t: Scalar,
    distance_squared: Scalar,
    radius_squared: Scalar,
    ray_t: &Interval,
) -> (r: bool)
    ensures
        r == disk_hit(denominator, t, distance_squared, radius_squared, *ray_t),
{
    crosses(denominator, t, ray_t) && is_interior(distance_squared, radius_squared)
}

/// Accepts the radius and the spanning vectors of a disk: the radius is
/// above the tolerance, and neither vector is near zero.
pub fn validate(radius: Scalar, u: &Direction, v: &Direction) -> (r: Result<(), Degenerate>)
    ensures
        r == if !Scalar::tolerance().lt(radius) {
            Err::<(), Degenerate>(Degenerate::Radius)
        } else if u.near_zero() || v.near_zero() {
            Err::<(), Degenerate>(Degenerate::Span)
        } else {
            Ok::<(), Degenerate>(())
        },
{
    if !Scalar::tolerance().lt(radius) {
        Err(Degenerate::Radius)
    } else if u.near_zero() || v.near_zero() {
        Err(Degenerate::Span)
    } else {
        Ok(())
    }
}

/// Accepts the normal of a disk, the unit cross product of its spanning
/// vectors, unless it is near zero.
pub fn validate_normal(normal: &Direction) -> (r: Result<(), Degenerate>)
    ensures
        r == if normal.near_zero() {
            Err::<(), Degenerate>(Degenerate::Parallel)
        } else {
            Ok::<(), Degenerate>(())
        },
{
    if normal.near_zero() {
        Err(Degenerate::Parallel)
    } else {
        Ok(())
    }
}

} // verus!
