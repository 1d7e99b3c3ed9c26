//! Whether a point of a plane lies in a quad.
//!
//! A quad is the parallelogram spanned by two vectors `u` and `v` from a
//! corner. A point of its plane is `corner + alpha u + beta v`.

use vstd::prelude::*;
use crate::degenerate::Degenerate;
use crate::hittables::plane::plane_hit;
use crate::hittables::plane::crosses;
use crate::interval::Interval;
use crate::scalar::Scalar;
use crate::vec3::Direction;

verus! {

/// The bits of `1e-16`, the least squared area of a quad.
pub const LEAST_AREA_SQUARED_BITS: u64 = 0x3C9C_D2B2_97D8_89BC;

/// Whether the point of planar coordinates `alpha` and `beta` lies in the
/// quad: both lie between zero and one, the bounds included.
pub open spec fn spec_is_interior(alpha: Scalar, beta: Scalar) -> bool {
    Interval::unit().contains(alpha) && Interval::unit().contains(beta)
}

/// Whether a ray meets a quad within `ray_t`: it meets the plane, and the
/// point of the meeting lies in the quad.
pub open spec fn quad_hit(denominator: Scalar, t: Scalar, alpha: Scalar, beta: Scalar, ray_t: Interval) -> bool {
    plane_hit(denominator, t, ray_t) && spec_is_interior(alpha, beta)
}

/// Whether the point of planar coordinates `alpha` and `beta` lies in the
/// quad.
#[verifier::when_used_as_spec(spec_is_interior)]
pub fn is_interior(alpha: Scalar, beta: Scalar) -> (r: bool)
    ensures
        r == spec_is_interior(alpha, beta),
{
    let unit = Interval::unit();
    if !unit.contains(alpha) || !unit.contains(beta) {
        false
    } else {
        true
    }
}

/// Whether a ray meets a quad within `ray_t`.
pub fn crosses_quad(denominator: Scalar, t: Scalar, alpha: Scalar, beta: Scalar, ray_t: &Interval) -> (r: bool)
    ensures
        r == quad_hit(denominator, t, alpha, beta, *ray_t),
{
    crosses(denominator, t, ray_t) && is_interior(alpha, beta)
}

/// Accepts the spanning vectors of a quad: neither is near zero, and the
/// squared length of their cross product, `area_squared`, is above `1e-16`.
pub fn validate(u: &Direction, v: &Direction, area_squared: Scalar) -> (r: Result<(), Degenerate>)
    ensures
        r == if u.near_zero() || v.near_zero() {
            Err::<(), Degenerate>(Degenerate::Span)
        } else if !area_squared.gt(Scalar { bits: LEAST_AREA_SQUARED_BITS }) {
            Err::<(), Degenerate>(Degenerate::Parallel)
        } else {
            Ok::<(), Degenerate>(())
        },
{
    if u.near_zero() || v.near_zero() {
        Err(Degenerate::Span)
    } else if !area_squared.gt(Scalar::from_bits(LEAST_AREA_SQUARED_BITS)) {
        Err(Degenerate::Parallel)
    } else {
        Ok(())
    }
}

} // verus!
