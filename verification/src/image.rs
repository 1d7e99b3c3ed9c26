//! The pixel dimensions of a rendered picture.

use vstd::prelude::*;
use crate::degenerate::above_tolerance;
use crate::degenerate::Degenerate;
use crate::scalar::Scalar;

verus! {

/// Width and height of a picture, in pixels.
#[derive(Clone, Copy, Debug)]
pub struct Image {
    pub width: u32,
    pub height: u32,
}

impl Image {
    /// Accepts an aspect ratio above the tolerance.
    pub fn validate(aspect_ratio: Scalar) -> (r: Result<(), Degenerate>)
        ensures
            r is Ok <==> Scalar::tolerance().lt(aspect_ratio),
            r is Err ==> r == Err::<(), Degenerate>(Degenerate::AspectRatio),
    {
        above_tolerance(aspect_ratio, Degenerate::AspectRatio)
    }

    /// A picture of the given width. `rows` is the width divided by the
    /// aspect ratio and truncated; a picture has at least one row.
    pub fn new(width: u32, rows: u32) -> (image: Image)
        ensures
            image.width == width,
            image.height == if rows == 0 { 1u32 } else { rows },
    {
        let height: u32 = if rows == 0 { 1 } else { rows };
        Image { width, height }
    }
}

} // verus!
