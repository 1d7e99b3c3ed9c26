//! A cylinder: a tube closed by two disks.

use vstd::prelude::*;
use crate::degenerate::above_tolerance;
use crate::degenerate::Degenerate;
use crate::scalar::Scalar;
use crate::vec3::Direction;
use crate::vec3::Vec3;

verus! {

/// The bits of `0.9`.
pub const STEEP_BITS: u64 = 0x3FEC_CCCC_CCCC_CCCD;

/// A vector that is not along the unit vector `axis`, from which the two
/// vectors that span the end disks are derived: the second coordinate
/// axis where `axis` leans to the first by more than `0.9`, else the first.
pub open spec fn spec_reference(axis: Direction) -> Direction {
    if axis.x.absolute().gt(Scalar { bits: STEEP_BITS }) {
        Vec3::of(Scalar::zero(), Scalar::one(), Scalar::zero())
    } else {
        Vec3::of(Scalar::one(), Scalar::zero(), Scalar::zero())
    }
}

/// A vector that is not along the unit vector `axis`.
pub fn reference(axis: &Direction) -> (r: Direction)
    ensures
        r == spec_reference(*axis),
{
    let zero = Scalar::zero();
    let one = Scalar::one();
    if axis.x.abs().gt(Scalar::from_bits(STEEP_BITS)) {
        Vec3::new(zero, one, zero)
    } else {
        Vec3::new(one, zero, zero)
    }
}

/// Accepts the axis of a cylinder where its length is above the tolerance.
pub fn validate(axis_length: Scalar) -> (r: Result<(), Degenerate>)
    ensures
        r is Ok <==> Scalar::tolerance().lt(axis_length),
        r is Err ==> r == Err::<(), Degenerate>(Degenerate::Axis),
{
    above_tolerance(axis_length, Degenerate::Axis)
}

} // verus!
