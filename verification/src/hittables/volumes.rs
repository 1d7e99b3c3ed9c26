//! A ray through a medium of constant density.
//!
//! A medium fills a boundary shape. A ray runs inside it from where it
//! enters the boundary to where it leaves, and scatters after a free flight
//! of random length `-ln(U) / density`, `U` uniform between zero and one,
//! unless it has left the medium by then.

use vstd::prelude::*;
use crate::hittables::HitRecord;
use crate::interval::Interval;
use crate::scalar::Scalar;
use crate::vec3::Direction;
use crate::vec3::Point3;
use crate::vec3::Vec3;

verus! {

/// The stretch of a ray inside a medium.
#[derive(Clone, Copy, Debug)]
pub struct Segment {
    pub start: Scalar,
    pub end: Scalar,
}

/// `t` raised to `floor` where it lies below.
pub open spec fn raised(t: Scalar, floor: Scalar) -> Scalar {
    if t.lt(floor) {
        floor
    } else {
        t
    }
}

/// `t` lowered to `ceiling` where it lies above.
pub open spec fn lowered(t: Scalar, ceiling: Scalar) -> Scalar {
    if t.gt(ceiling) {
        ceiling
    } else {
        t
    }
}

/// The stretch between `entry` and `exit` that lies within `ray_t`, and
/// starts no earlier than the ray's origin. None where the stretch cut to
/// `ray_t` does not start before it ends.
pub open spec fn clipped(entry: Scalar, exit: Scalar, ray_t: Interval) -> Option<Segment> {
    let start = raised(entry, ray_t.min);
    let end = lowered(exit, ray_t.max);
    if start.ge(end) {
        None
    } else {
        Some(Segment { start: raised(start, Scalar::zero()), end })
    }
}

/// Whether a ray scatters inside the medium: its free flight is not longer
/// than its way through the medium.
pub open spec fn spec_scatters(free_flight: Scalar, way_inside: Scalar) -> bool {
    !free_flight.gt(way_inside)
}

/// The normal given to a meeting inside a medium. A medium scatters the
/// same in every direction, so the normal is never read.
pub open spec fn any_normal() -> Direction {
    Vec3::of(Scalar::one(), Scalar::zero(), Scalar::zero())
}

/// Cuts the stretch between the boundary's `entry` and `exit` to `ray_t`.
pub fn clip(entry: Scalar, exit: Scalar, ray_t: &Interval) -> (segment: Option<Segment>)
    ensures
        segment == clipped(entry, exit, *ray_t),
{
    let mut start = entry;
    let mut end = exit;
    if start.lt(ray_t.min) {
        start = ray_t.min;
    }
    if end.gt(ray_t.max) {
        end = ray_t.max;
    }
    if start.ge(end) {
        return None;
    }
    if start.lt(Scalar::zero()) {
        start = Scalar::zero();
    }
    Some(Segment { start, end })
}

/// Whether a ray scatters inside the medium.
#[verifier::when_used_as_spec(spec_scatters)]
pub fn scatters(free_flight: Scalar, way_inside: Scalar) -> (r: bool)
    ensures
        r == spec_scatters(free_flight, way_inside),
{
    !free_flight.gt(way_inside)
}

/// The record of a scattering inside a medium, at `point` and parameter
/// `t`.
pub fn scattering<M>(point: Point3, t: Scalar, material: M) -> (record: HitRecord<M>)
    ensures
        record.point == point,
        record.t == t,
        record.material == material,
        record.normal == any_normal(),
        record.front_face,
{
    HitRecord {
        point,
        normal: Vec3::new(Scalar::one(), Scalar::zero(), Scalar::zero()),
        t,
        material,
        front_face: true,
    }
}

/// Of numbers that are not NaN: a clipped stretch starts at or after the
/// ray's origin and ends within the range asked for; and wherever that
/// range starts at or after the origin, the stretch starts before it ends
/// and lies within the range.
pub proof fn lemma_clipped_is_inside(entry: Scalar, exit: Scalar, ray_t: Interval)
    requires
        !entry.is_nan(),
        !exit.is_nan(),
        !ray_t.min.is_nan(),
        !ray_t.max.is_nan(),
    ensures
        clipped(entry, exit, ray_t) matches Some(segment) ==> {
            &&& segment.start.ge(Scalar::zero())
            &&& segment.end.le(ray_t.max)
            &&& ray_t.min.ge(Scalar::zero()) ==> segment.start.lt(segment.end) && ray_t.contains(segment.start)
                && ray_t.contains(segment.end)
        },
{
}

/// The two ends of the density scale. A medium of no density gives an
/// endless free flight, and the ray never scatters on a way of finite
/// length. A medium of endless density gives a free flight of length zero,
/// and the ray always scatters, at the start of its way inside.
pub proof fn lemma_density_limits(way_inside: Scalar)
    ensures
        way_inside.is_finite() ==> !spec_scatters(Scalar::infinity(), way_inside),
        way_inside.ge(Scalar::zero()) ==> spec_scatters(Scalar::zero(), way_inside),
        way_inside.ge(Scalar::zero()) ==> spec_scatters(Scalar::zero().negated(), way_inside),
{
}

} // verus!
