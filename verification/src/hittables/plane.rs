//! Whether a ray meets a plane.
//!
//! A ray meets the plane of normal `n` and offset `d` at
//! `t = (d - n.O) / (n.D)`, unless it runs along the plane.

use vstd::prelude::*;
use crate::degenerate::Degenerate;
use crate::interval::Interval;
use crate::scalar::Scalar;
use crate::vec3::Direction;

verus! {

/// Whether a ray runs along a plane: `denominator`, the dot product of the
/// plane's normal and the ray's direction, is below the tolerance in
/// absolute value.
pub open spec fn is_parallel(denominator: Scalar) -> bool {
    denominator.absolute().lt(Scalar::tolerance())
}

/// Whether a ray meets a plane within `ray_t`: it does not run along the
/// plane, and the parameter `t` of the meeting lies in the range.
pub open spec fn plane_hit(denominator: Scalar, t: Scalar, ray_t: Interval) -> bool {
    !is_parallel(denominator) && ray_t.contains(t)
}

/// Whether a ray runs along a plane.
pub fn parallel(denominator: Scalar) -> (r: bool)
    ensures
        r == is_parallel(denominator),
{
    denominator.abs().lt(Scalar::tolerance())
}

/// Whether a ray meets a plane within `ray_t`.
pub fn crosses(denominator: Scalar, t: Scalar, ray_t: &Interval) -> (r: bool)
    ensures
        r == plane_hit(denominator, t, *ray_t),
{
    !parallel(denominator) && ray_t.contains(t)
}

/// Accepts the normal of a plane unless it is near zero.
pub fn validate(normal: &Direction) -> (r: Result<(), Degenerate>)
    ensures
        r is Ok <==> !normal.near_zero(),
        r is Err ==> r == Err::<(), Degenerate>(Degenerate::Normal),
{
    if normal.near_zero() {
        Err(Degenerate::Normal)
    } else {
        Ok(())
    }
}

} // verus!
