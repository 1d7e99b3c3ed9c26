//! What makes a shape, a material or a camera unusable.
//!
//! Degenerate geometry has no valid intersection behaviour, so it is refused
//! when a scene is built, not when it is rendered.

use vstd::prelude::*;
use crate::scalar::Scalar;

verus! {

/// Why a value was refused.
#[derive(Clone, Copy, Debug, PartialEq, Eq, Structural)]
pub enum Degenerate {
    /// The radius of a sphere or a disk is not above the tolerance.
    Radius,
    /// The half-width of a cube is not above the tolerance.
    Size,
    /// A spanning vector of a quad or a disk is near zero.
    Span,
    /// The spanning vectors of a quad or a disk are near parallel.
    Parallel,
    /// The normal of a plane is near zero.
    Normal,
    /// The axis of a cylinder is not longer than the tolerance.
    Axis,
    /// The refraction index of a dielectric is not above the tolerance.
    RefractionIndex,
    /// The aspect ratio of a picture is not above the tolerance.
    AspectRatio,
    /// The height of a viewport is not above the tolerance.
    ViewportHeight,
    /// The camera's horizontal axis is near zero.
    CameraU,
    /// The camera's vertical axis is near zero.
    CameraV,
    /// The direction of a ray is near zero.
    RayDirection,
    /// The three vectors of a basis are not independent enough.
    Basis,
}

impl Degenerate {
    /// The message that goes with the refusal.
    pub open spec fn spec_message(self) -> Seq<char> {
        match self {
            Degenerate::Radius => "Radius is too small"@,
            Degenerate::Size => "Size is too small"@,
            Degenerate::Span => "Spanning vector(s) too close to zero"@,
            Degenerate::Parallel => "Normal vector too close to zero: spanning vectors too close to parallel?"@,
            Degenerate::Normal => "Normal vector too close to zero"@,
            Degenerate::Axis => "Axis vector is too small"@,
            Degenerate::RefractionIndex => "Refraction index is too small"@,
            Degenerate::AspectRatio => "Aspect ratio is too low"@,
            Degenerate::ViewportHeight => "Height of viewport is too small"@,
            Degenerate::CameraU => "camera_u direction vector too close to zero"@,
            Degenerate::CameraV => "camera_v direction vector too close to zero"@,
            Degenerate::RayDirection => "Direction vector is too close to zero"@,
            Degenerate::Basis => "Invalid basis: vectors not independent enough"@,
        }
    }

    /// The message that goes with the refusal.
    pub fn message(self) -> (s: &'static str)
        ensures
            s@ == self.spec_message(),
    {
        match self {
            Degenerate::Radius => "Radius is too small",
            Degenerate::Size => "Size is too small",
            Degenerate::Span => "Spanning vector(s) too close to zero",
            Degenerate::Parallel => "Normal vector too close to zero: spanning vectors too close to parallel?",
            Degenerate::Normal => "Normal vector too close to zero",
            Degenerate::Axis => "Axis vector is too small",
            Degenerate::RefractionIndex => "Refraction index is too small",
            Degenerate::AspectRatio => "Aspect ratio is too low",
            Degenerate::ViewportHeight => "Height of viewport is too small",
            Degenerate::CameraU => "camera_u direction vector too close to zero",
            Degenerate::CameraV => "camera_v direction vector too close to zero",
            Degenerate::RayDirection => "Direction vector is too close to zero",
            Degenerate::Basis => "Invalid basis: vectors not independent enough",
        }
    }
}

/// Accepts `value` where it is above the tolerance, and refuses it as
/// `reason` otherwise; a NaN is refused.
pub fn above_tolerance(value: Scalar, reason: Degenerate) -> (r: Result<(), Degenerate>)
    ensures
        r == if Scalar::tolerance().lt(value) {
            Ok::<(), Degenerate>(())
        } else {
            Err::<(), Degenerate>(reason)
        },
{
    if Scalar::tolerance().lt(value) {
        Ok(())
    } else {
        Err(reason)
    }
}

} // verus!
