//! What a ray meets: the record of a meeting, and the choice of the
//! nearest among several.

pub mod cube;
pub mod cylinder;
pub mod disk;
pub mod plane;
pub mod quad;
pub mod sphere;
pub mod tube;
pub mod volumes;

use vstd::prelude::*;
use vstd::seq_lib::to_multiset_contains;
use crate::interval::Interval;
use crate::scalar::Scalar;
use crate::vec3::Direction;
use crate::vec3::Point3;

verus! {

/// Where a ray met a surface. `M` is the handle of the surface's material.
pub struct HitRecord<M> {
    /// The point of the meeting.
    pub point: Point3,
    /// The normal of the surface there, turned against the ray.
    pub normal: Direction,
    /// The ray's parameter at the meeting.
    pub t: Scalar,
    pub material: M,
    /// Whether the ray came from outside the surface.
    pub front_face: bool,
}

impl<M> HitRecord<M> {
    /// Whether a ray comes from outside: `facing`, the dot product of the
    /// ray's direction and the outward normal, is below zero.
    pub open spec fn faces_front(facing: Scalar) -> bool {
        facing.lt(Scalar::zero())
    }

    /// The normal turned against the ray: the outward normal for a ray from
    /// outside, its opposite otherwise.
    pub open spec fn facing_normal(outward_normal: Direction, facing: Scalar) -> Direction {
        if Self::faces_front(facing) {
            outward_normal
        } else {
            outward_normal.negated()
        }
    }

    /// The record of a meeting at `point` and parameter `t`. `facing` is the
    /// dot product of the ray's direction and `outward_normal`.
    pub fn new(point: Point3, outward_normal: Direction, t: Scalar, material: M, facing: Scalar) -> (record:
        Self)
        ensures
            record.point == point,
            record.t == t,
            record.material == material,
            record.front_face == Self::faces_front(facing),
            record.normal == Self::facing_normal(outward_normal, facing),
    {
        let front_face = facing.lt(Scalar::zero());
        let normal = if front_face {
            outward_normal
        } else {
            outward_normal.neg()
        };
        HitRecord { point, normal, t, material, front_face }
    }
}

/// The returned normal never points along the ray. Flipping a vector flips
/// the sign of its dot products, so the dot product of the ray's direction
/// and the returned normal is `facing` where the ray comes from outside and
/// the opposite of `facing` otherwise: a number that is never above zero.
pub proof fn lemma_normal_faces_ray(facing: Scalar)
    requires
        !facing.is_nan(),
    ensures
        HitRecord::<()>::faces_front(facing) ==> facing.le(Scalar::zero()),
        !HitRecord::<()>::faces_front(facing) ==> facing.negated().le(Scalar::zero()),
{
}

/// The parameters of the given records, in their order.
pub open spec fn parameters<M>(hits: Seq<HitRecord<M>>) -> Seq<Scalar> {
    Seq::new(hits.len(), |i: int| hits[i].t)
}

/// Whether the parameter at `i` is the one to report of `ts` within
/// `ray_t`: it lies in the range, none in the range is lower, and none
/// before it in the range is as low.
pub open spec fn is_nearest_within(ts: Seq<Scalar>, ray_t: Interval, i: int) -> bool {
    &&& 0 <= i < ts.len()
    &&& ray_t.contains(ts[i])
    &&& forall|j: int| 0 <= j < ts.len() && ray_t.contains(#[trigger] ts[j]) ==> ts[i].le(ts[j])
    &&& forall|j: int| 0 <= j < i && ray_t.contains(#[trigger] ts[j]) ==> ts[i].lt(ts[j])
}

/// At most one parameter is the one to report.
pub proof fn lemma_nearest_within_unique(ts: Seq<Scalar>, ray_t: Interval, i: int, k: int)
    requires
        is_nearest_within(ts, ray_t, i),
        is_nearest_within(ts, ray_t, k),
    ensures
        i == k,
{
    if i < k {
        assert(ray_t.contains(ts[i]));
        assert(ts[k].lt(ts[i]));
        assert(ts[i].le(ts[k]));
    } else if k < i {
        assert(ray_t.contains(ts[k]));
        assert(ts[i].lt(ts[k]));
        assert(ts[k].le(ts[i]));
    }
}

/// The order of the members of a list does not change how far a ray gets:
/// two lists of the same parameters, in whatever order, have the same
/// number as the parameter to report.
pub proof fn lemma_nearest_ignores_order(ts: Seq<Scalar>, us: Seq<Scalar>, ray_t: Interval, i: int, k: int)
    requires
        ts.to_multiset() == us.to_multiset(),
        is_nearest_within(ts, ray_t, i),
        is_nearest_within(us, ray_t, k),
    ensures
        ts[i].rank() == us[k].rank(),
{
    to_multiset_contains(ts, ts[i]);
    to_multiset_contains(us, ts[i]);
    to_multiset_contains(ts, us[k]);
    to_multiset_contains(us, us[k]);
    assert(ts.contains(ts[i]));
    assert(us.contains(us[k]));
    let j = choose|j: int| 0 <= j < us.len() && us[j] == ts[i];
    let l = choose|l: int| 0 <= l < ts.len() && ts[l] == us[k];
    assert(ray_t.contains(us[j]));
    assert(ray_t.contains(ts[l]));
    assert(us[k].le(us[j]));
    assert(ts[i].le(ts[l]));
}

/// Of all the meetings of one ray with the members of a list, the one to
/// report within `ray_t`: the record that comes first among those in the
/// range once the records are sorted by parameter, records of equal
/// parameter staying in their order. `None` where no record lies in the
/// range.
pub fn nearest_within<M>(hits: Vec<HitRecord<M>>, ray_t: &Interval) -> (found: Option<HitRecord<M>>)
    ensures
        match found {
            Some(record) => exists|i: int|
                is_nearest_within(parameters(hits@), *ray_t, i) && record == hits@[i],
            None => forall|j: int| 0 <= j < hits@.len() ==> !ray_t.contains(#[trigger] hits@[j].t),
        },
{
    let ghost ts = parameters(hits@);
    let mut best: Option<usize> = None;
    let mut i: usize = 0;
    while i < hits.len()
        invariant
            i <= hits.len(),
            ts == parameters(hits@),
            match best {
                Some(b) => is_nearest_within(ts.take(i as int), *ray_t, b as int),
                None => forall|j: int| 0 <= j < i ==> !ray_t.contains(#[trigger] ts[j]),
            },
        decreases hits.len() - i,
    {
        let t = hits[i].t;
        let ghost before = ts.take(i as int);
        let ghost after = ts.take(i + 1);
        assert(forall|j: int| 0 <= j < i ==> after[j] == before[j]);
        assert(after[i as int] == t);
        if ray_t.contains(t) {
            match best {
                Some(b) => {
                    assert(before[b as int] == ts[b as int]);
                    if t.lt(hits[b].t) {
                        best = Some(i);
                        assert forall|j: int|
                            0 <= j < after.len() && ray_t.contains(#[trigger] after[j]) implies t.le(
                            after[j],
                        ) by {
                            if j < i {
                                assert(ray_t.contains(before[j]));
                            }
                        }
                        assert forall|j: int| 0 <= j < i && ray_t.contains(#[trigger] after[j]) implies t.lt(
                            after[j],
                        ) by {
                            assert(ray_t.contains(before[j]));
                        }
                    } else {
                        assert forall|j: int|
                            0 <= j < after.len() && ray_t.contains(#[trigger] after[j]) implies after[b as int].le(
                            after[j],
                        ) by {
                            if j < i {
                                assert(ray_t.contains(before[j]));
                            }
                        }
                        assert forall|j: int|
                            0 <= j < b && ray_t.contains(#[trigger] after[j]) implies after[b as int].lt(
                            after[j],
                        ) by {
                            assert(ray_t.contains(before[j]));
                        }
                    }
                },
                None => {
                    best = Some(i);
                    assert forall|j: int|
                        0 <= j < after.len() && ray_t.contains(#[trigger] after[j]) implies t.le(after[j]) by {
                        if j < i {
                            assert(after[j] == ts[j]);
                        }
                    }
                    assert forall|j: int| 0 <= j < i && ray_t.contains(#[trigger] after[j]) implies t.lt(
                        after[j],
                    ) by {
                        assert(after[j] == ts[j]);
                    }
                },
            }
        } else {
            match best {
                Some(b) => {
                    assert(forall|j: int|
                        0 <= j < after.len() && ray_t.contains(#[trigger] after[j]) ==> j < i
                            && ray_t.contains(before[j]));
                },
                None => {},
            }
        }
        i += 1;
    }
    assert(ts.take(hits.len() as int) =~= ts);
    match best {
        Some(b) => {
            let mut hits = hits;
            let ghost all = hits@;
            let record = hits.swap_remove(b);
            assert(record == all[b as int]);
            Some(record)
        },
        None => {
            assert forall|j: int| 0 <= j < hits@.len() implies !ray_t.contains(#[trigger] hits@[j].t) by {
                assert(ts[j] == hits@[j].t);
            }
            None
        },
    }
}

/// A scan for the nearest meeting that narrows as it goes: each member of
/// a list is asked for a meeting within `window`, and a meeting that is
/// found becomes the far end of the window for the members after it.
pub struct Scan<M> {
    /// The range within which the next member is asked for a meeting.
    pub window: Interval,
    /// The nearest meeting so far.
    pub nearest: Option<HitRecord<M>>,
}

impl<M> Scan<M> {
    /// The scan before any member was asked: the window is `ray_t`.
    pub fn start(ray_t: &Interval) -> (scan: Scan<M>)
        ensures
            scan.window == *ray_t,
            scan.nearest is None,
    {
        Scan { window: *ray_t, nearest: None }
    }

    /// The scan after one more member answered. What it found replaces the
    /// nearest meeting and ends the window.
    pub fn offer(self, found: Option<HitRecord<M>>) -> (scan: Scan<M>)
        ensures
            match found {
                Some(record) => scan.window == (Interval { min: self.window.min, max: record.t })
                    && scan.nearest == Some(record),
                None => scan == self,
            },
    {
        match found {
            Some(record) => Scan {
                window: Interval::new(self.window.min, record.t),
                nearest: Some(record),
            },
            None => self,
        }
    }

    /// The nearest meeting, once every member was asked.
    pub fn finish(self) -> (nearest: Option<HitRecord<M>>)
        ensures
            nearest == self.nearest,
    {
        self.nearest
    }
}

/// The far end of a scan's window after the first `n` of the given
/// answers, each the parameter of a meeting or none.
pub open spec fn window_end(ray_t: Interval, answers: Seq<Option<Scalar>>, n: nat) -> Scalar
    decreases n,
{
    if n == 0 {
        ray_t.max
    } else {
        match answers[n - 1] {
            Some(t) => t,
            None => window_end(ray_t, answers, (n - 1) as nat),
        }
    }
}

/// Whether any of the first `n` answers is a meeting.
pub open spec fn answered(answers: Seq<Option<Scalar>>, n: nat) -> bool
    decreases n,
{
    n > 0 && (answers[n - 1] is Some || answered(answers, (n - 1) as nat))
}

/// Whether the answer at `i`, where it is a meeting, lies within the
/// window at the time it is given.
pub open spec fn answer_in_window(ray_t: Interval, answers: Seq<Option<Scalar>>, i: int) -> bool {
    answers[i] matches Some(t) ==> ray_t.min.le(t) && t.le(window_end(ray_t, answers, i as nat))
}

/// Whether each answer lies within the window at the time it is given.
pub open spec fn answers_in_window(ray_t: Interval, answers: Seq<Option<Scalar>>) -> bool {
    forall|i: int| 0 <= i < answers.len() ==> #[trigger] answer_in_window(ray_t, answers, i)
}

/// A narrowing scan ends on the nearest meeting: where each answer lies
/// within the window at its time, every meeting lies in the range that the
/// scan started with, and the window ends, after all answers, at a
/// parameter that no meeting is below. Without a meeting the window is
/// left as it was.
pub proof fn lemma_scan_ends_nearest(ray_t: Interval, answers: Seq<Option<Scalar>>, n: nat)
    requires
        n <= answers.len(),
        answers_in_window(ray_t, answers),
    ensures
        forall|i: int|
            0 <= i < n ==> (#[trigger] answers[i] matches Some(t) ==> window_end(ray_t, answers, n).le(t)
                && ray_t.contains(t)),
        answered(answers, n) ==> window_end(ray_t, answers, n).le(ray_t.max),
        !answered(answers, n) ==> window_end(ray_t, answers, n) == ray_t.max,
    decreases n,
{
    if n > 0 {
        lemma_scan_ends_nearest(ray_t, answers, (n - 1) as nat);
        let before = window_end(ray_t, answers, (n - 1) as nat);
        assert(answer_in_window(ray_t, answers, n - 1));
        match answers[n - 1] {
            Some(t) => {
                assert(t.le(before));
                assert(window_end(ray_t, answers, n) == t);
                assert(t.le(ray_t.max));
                assert forall|i: int| 0 <= i < n implies (#[trigger] answers[i] matches Some(u) ==> t.le(u)
                    && ray_t.contains(u)) by {
                    if i < n - 1 {
                        match answers[i] {
                            Some(u) => {
                                assert(before.le(u));
                            },
                            None => {},
                        }
                    }
                }
            },
            None => {
                assert(window_end(ray_t, answers, n) == before);
            },
        }
    }
}

} // verus!
