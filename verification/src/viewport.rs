//! The viewport: the rectangle in space through which the camera looks.

use vstd::prelude::*;
use crate::degenerate::Degenerate;
use crate::scalar::Scalar;
use crate::vec3::Direction;

verus! {

/// Accepts the height of a viewport and the two axes of the camera along
/// which it lies: the height is above the tolerance, and neither axis is
/// near zero.
pub fn validate(height: Scalar, camera_u: &Direction, camera_v: &Direction) -> (r: Result<(), Degenerate>)
    ensures
        r == if !height.gt(Scalar::tolerance()) {
            Err::<(), Degenerate>(Degenerate::ViewportHeight)
        } else if camera_u.near_zero() {
            Err::<(), Degenerate>(Degenerate::CameraU)
        } else if camera_v.near_zero() {
            Err::<(), Degenerate>(Degenerate::CameraV)
        } else {
            Ok::<(), Degenerate>(())
        },
{
    if !height.gt(Scalar::tolerance()) {
        Err(Degenerate::ViewportHeight)
    } else if camera_u.near_zero() {
        Err(Degenerate::CameraU)
    } else if camera_v.near_zero() {
        Err(Degenerate::CameraV)
    } else {
        Ok(())
    }
}

} // verus!
