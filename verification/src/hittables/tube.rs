//! Which crossing of a tube's wall a ray reports.
//!
//! A tube is the wall of a cylinder between its base and its top. The ray
//! crosses the endless wall at up to two parameters; a crossing counts
//! where it lies between base and top.

use vstd::prelude::*;
use crate::interval::Interval;
use crate::scalar::Scalar;

verus! {

/// A crossing of the endless wall.
#[derive(Clone, Copy, Debug)]
pub struct Crossing {
    /// The ray's parameter at the crossing.
    pub t: Scalar,
    /// How far along the axis, from the base, the crossing lies.
    pub height: Scalar,
}

impl Crossing {
    /// Whether the crossing counts: its parameter lies strictly inside
    /// `ray_t`, and it lies neither below the base nor above `top`.
    pub open spec fn counts(self, top: Scalar, ray_t: Interval) -> bool {
        &&& ray_t.surrounds(self.t)
        &&& !self.height.lt(Scalar::zero())
        &&& !self.height.gt(top)
    }
}

/// The place of the crossing that a ray reports: none where the
/// discriminant is below zero; else the first of the two that counts.
pub open spec fn tube_hit(discriminant: Scalar, crossings: Seq<Crossing>, top: Scalar, ray_t: Interval) -> Option<
    usize,
> {
    if discriminant.lt(Scalar::zero()) {
        None
    } else if crossings[0].counts(top, ray_t) {
        Some(0)
    } else if crossings[1].counts(top, ray_t) {
        Some(1)
    } else {
        None
    }
}

/// Chooses between the two crossings, given in the order of the roots
/// `(-h - sqrt(discriminant)) / a` and `(-h + sqrt(discriminant)) / a`.
pub fn first_crossing(discriminant: Scalar, crossings: &[Crossing; 2], top: Scalar, ray_t: &Interval) -> (found:
    Option<usize>)
    ensures
        found == tube_hit(discriminant, crossings@, top, *ray_t),
{
    let zero = Scalar::zero();
    if discriminant.lt(zero) {
        return None;
    }
    let mut i: usize = 0;
    while i < 2
        invariant
            i <= 2,
            zero == Scalar::zero(),
            !discriminant.lt(Scalar::zero()),
            forall|j: int| 0 <= j < i ==> !(#[trigger] crossings@[j]).counts(top, *ray_t),
        decreases 2 - i,
    {
        let crossing = crossings[i];
        assert(crossing == crossings@[i as int]);
        if ray_t.surrounds(crossing.t) && !crossing.height.lt(zero) && !crossing.height.gt(top) {
            return Some(i);
        }
        i += 1;
    }
    None
}

/// The crossing reported counts, and none before it does.
pub proof fn lemma_tube_hit_is_first(discriminant: Scalar, crossings: Seq<Crossing>, top: Scalar, ray_t: Interval)
    requires
        crossings.len() == 2,
    ensures
        tube_hit(discriminant, crossings, top, ray_t) matches Some(i) ==> {
            &&& i < 2
            &&& crossings[i as int].counts(top, ray_t)
            &&& ray_t.surrounds(crossings[i as int].t)
            &&& forall|j: int| 0 <= j < i ==> !(#[trigger] crossings[j]).counts(top, ray_t)
        },
{
}

} // verus!
