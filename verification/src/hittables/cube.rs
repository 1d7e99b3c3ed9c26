//! The slab test of a ray against a cube, in the cube's own frame.
//!
//! Along each of its three axes a cube is the slab between two parallel
//! faces. A ray is inside the cube while it is inside all three slabs: from
//! the latest entry to the earliest exit.

use vstd::prelude::*;
use crate::degenerate::above_tolerance;
use crate::degenerate::Degenerate;
use crate::interval::Interval;
use crate::scalar::Scalar;
use crate::vec3::Basis;
use crate::vec3::Direction;
use crate::vec3::Point3;
use crate::vec3::Vec3;

verus! {

/// A cube. `M` is the handle of its material.
pub struct Cube<M> {
    pub center: Point3,
    /// Half the length of a side: the distance from the centre to a face.
    /// Above the tolerance.
    pub size: Scalar,
    pub material: M,
    /// The three axes of the cube's own frame: unit vectors at right angles.
    pub u: Direction,
    pub v: Direction,
    pub w: Direction,
}

impl<M> Cube<M> {
    /// The cube whose axes are those of the world.
    pub fn new(center: Point3, size: Scalar, material: M) -> (cube: Cube<M>)
        requires
            Scalar::tolerance().lt(size),
        ensures
            cube.center == center,
            cube.size == size,
            cube.material == material,
            cube.u == along(0, Scalar::one()),
            cube.v == along(1, Scalar::one()),
            cube.w == along(2, Scalar::one()),
    {
        let zero = Scalar::zero();
        let one = Scalar::one();
        Cube {
            center,
            size,
            material,
            u: Vec3::new(one, zero, zero),
            v: Vec3::new(zero, one, zero),
            w: Vec3::new(zero, zero, one),
        }
    }

    /// The cube whose axes are those of `orientation`.
    pub fn new_oriented(center: Point3, size: Scalar, orientation: &Basis, material: M) -> (cube: Cube<M>)
        requires
            Scalar::tolerance().lt(size),
        ensures
            cube.center == center,
            cube.size == size,
            cube.material == material,
            cube.u == orientation.x,
            cube.v == orientation.y,
            cube.w == orientation.z,
    {
        Cube { center, size, material, u: orientation.x, v: orientation.y, w: orientation.z }
    }
}

/// Accepts the half-width of a cube where it is above the tolerance.
pub fn validate(size: Scalar) -> (r: Result<(), Degenerate>)
    ensures
        r is Ok <==> Scalar::tolerance().lt(size),
        r is Err ==> r == Err::<(), Degenerate>(Degenerate::Size),
{
    above_tolerance(size, Degenerate::Size)
}

/// How a ray runs along one axis of a cube's frame.
#[derive(Clone, Copy, Debug)]
pub struct Slab {
    /// The ray's origin along the axis, measured from the cube's centre.
    pub origin: Scalar,
    /// The ray's direction along the axis.
    pub direction: Scalar,
    /// The parameter at which the ray meets the face on the negative side:
    /// `(-size - origin) / direction`.
    pub lower: Scalar,
    /// The parameter at which the ray meets the face on the positive side:
    /// `(size - origin) / direction`.
    pub upper: Scalar,
}

/// The stretch of a ray inside the slabs seen so far, and the face through
/// which it enters and leaves that stretch.
#[derive(Clone, Copy, Debug)]
pub struct Span {
    /// The latest entry.
    pub t_min: Scalar,
    /// The earliest exit.
    pub t_max: Scalar,
    /// The axis of the face of entry, if any slab was entered.
    pub min_axis: Option<usize>,
    /// The axis of the face of exit, if any slab was left.
    pub max_axis: Option<usize>,
    /// The outward normal of the face of entry along its axis: plus or
    /// minus one.
    pub min_sign: Scalar,
    /// The outward normal of the face of exit along its axis: plus or minus
    /// one.
    pub max_sign: Scalar,
}

/// Where a ray meets a cube.
#[derive(Clone, Copy, Debug)]
pub struct FaceHit {
    /// The ray's parameter at the meeting.
    pub t: Scalar,
    /// The outward normal of the face that is met, in the cube's frame:
    /// plus or minus one along the axis of the face.
    pub normal: Direction,
}

impl Slab {
    /// Whether the ray runs along the slab: its direction along the axis is
    /// below the tolerance in absolute value.
    pub open spec fn is_parallel(self) -> bool {
        self.direction.absolute().lt(Scalar::tolerance())
    }

    /// Whether the ray's origin lies outside the slab of half-width `size`.
    pub open spec fn starts_outside(self, size: Scalar) -> bool {
        self.origin.absolute().gt(size)
    }

    /// Whether the ray meets the negative face first.
    pub open spec fn rises(self) -> bool {
        self.lower.lt(self.upper)
    }

    /// The parameter at which the ray enters the slab.
    pub open spec fn entry(self) -> Scalar {
        if self.rises() {
            self.lower
        } else {
            self.upper
        }
    }

    /// The parameter at which the ray leaves the slab.
    pub open spec fn exit(self) -> Scalar {
        if self.rises() {
            self.upper
        } else {
            self.lower
        }
    }

    /// The outward normal of the face of entry, along the axis: against
    /// the ray's direction, whichever face is met first.
    pub open spec fn entry_sign(self) -> Scalar {
        self.direction.signum().negated()
    }

    /// The outward normal of the face of exit, along the axis: along the
    /// ray's direction.
    pub open spec fn exit_sign(self) -> Scalar {
        self.direction.signum()
    }
}

impl Span {
    /// The whole ray, before any slab has cut it.
    pub open spec fn whole() -> Span {
        Span {
            t_min: Scalar::neg_infinity(),
            t_max: Scalar::infinity(),
            min_axis: None,
            max_axis: None,
            min_sign: Scalar::zero(),
            max_sign: Scalar::zero(),
        }
    }

    /// The span cut down to the slab of `axis`: a later entry replaces the
    /// entry, an earlier exit the exit.
    pub open spec fn narrowed(self, axis: usize, slab: Slab) -> Span {
        let entered = if slab.entry().gt(self.t_min) {
            Span { t_min: slab.entry(), min_axis: Some(axis), min_sign: slab.entry_sign(), ..self }
        } else {
            self
        };
        if slab.exit().lt(entered.t_max) {
            Span { t_max: slab.exit(), max_axis: Some(axis), max_sign: slab.exit_sign(), ..entered }
        } else {
            entered
        }
    }

    /// Whether the span is empty: the entry comes after the exit.
    pub open spec fn is_void(self) -> bool {
        self.t_min.gt(self.t_max)
    }

    /// The meeting to report within `ray_t`: the entry where it lies in the
    /// range, else the exit where that does.
    pub open spec fn reported(self, ray_t: Interval) -> Option<FaceHit> {
        if ray_t.contains(self.t_min) {
            Some(face(self.t_min, self.min_axis, self.min_sign))
        } else if ray_t.contains(self.t_max) {
            Some(face(self.t_max, self.max_axis, self.max_sign))
        } else {
            None
        }
    }
}

/// The vector whose component at `axis` is `value`, the others zero.
pub open spec fn along(axis: usize, value: Scalar) -> Direction {
    Vec3::<crate::vec3::DirectionType>::of(Scalar::zero(), Scalar::zero(), Scalar::zero()).replaced(axis, value)
}

/// The vector `sign` along `axis`; the zero vector where no slab was
/// crossed.
pub open spec fn normal_along(axis: Option<usize>, sign: Scalar) -> Direction {
    match axis {
        Some(a) => along(a, sign),
        None => Vec3::of(Scalar::zero(), Scalar::zero(), Scalar::zero()),
    }
}

/// The meeting at `t` with the face of normal `sign` along `axis`.
pub open spec fn face(t: Scalar, axis: Option<usize>, sign: Scalar) -> FaceHit {
    FaceHit { t, normal: normal_along(axis, sign) }
}

/// The span of the ray inside the first `n` slabs, or `None` where it
/// misses one of them: it runs along a slab with its origin outside, or the
/// span has become empty.
pub open spec fn span_inside(slabs: Seq<Slab>, size: Scalar, n: nat) -> Option<Span>
    decreases n,
{
    if n == 0 {
        Some(Span::whole())
    } else {
        match span_inside(slabs, size, (n - 1) as nat) {
            None => None,
            Some(span) => {
                let slab = slabs[n - 1];
                if slab.is_parallel() {
                    if slab.starts_outside(size) {
                        None
                    } else {
                        Some(span)
                    }
                } else {
                    let cut = span.narrowed((n - 1) as usize, slab);
                    if cut.is_void() {
                        None
                    } else {
                        Some(cut)
                    }
                }
            },
        }
    }
}

/// Where a ray meets the cube of half-width `size` within `ray_t`.
pub open spec fn cube_hit(slabs: Seq<Slab>, size: Scalar, ray_t: Interval) -> Option<FaceHit> {
    match span_inside(slabs, size, 3) {
        None => None,
        Some(span) => span.reported(ray_t),
    }
}

/// The normal `sign` along `axis`.
fn face_normal(axis: Option<usize>, sign: Scalar) -> (normal: Direction)
    requires
        axis matches Some(a) ==> a < 3,
    ensures
        normal == normal_along(axis, sign),
{
    let nothing: Direction = Vec3::new(Scalar::zero(), Scalar::zero(), Scalar::zero());
    match axis {
        Some(a) => nothing.with_component(a, sign),
        None => nothing,
    }
}

/// The slab test. `slabs` describes the ray along the three axes of the
/// cube's frame; `size` is half the cube's side.
pub fn slab_test(slabs: &[Slab; 3], size: Scalar, ray_t: &Interval) -> (hit: Option<FaceHit>)
    ensures
        hit == cube_hit(slabs@, size, *ray_t),
{
    let epsilon = Scalar::tolerance();
    let mut span = Span {
        t_min: Scalar::neg_infinity(),
        t_max: Scalar::infinity(),
        min_axis: None,
        max_axis: None,
        min_sign: Scalar::zero(),
        max_sign: Scalar::zero(),
    };
    let mut axis: usize = 0;
    while axis < 3
        invariant
            axis <= 3,
            epsilon == Scalar::tolerance(),
            span_inside(slabs@, size, axis as nat) == Some(span),
            span.min_axis matches Some(a) ==> a < 3,
            span.max_axis matches Some(a) ==> a < 3,
        decreases 3 - axis,
    {
        let slab = slabs[axis];
        assert(slab == slabs@[axis as int]);
        if slab.direction.abs().lt(epsilon) {
            if slab.origin.abs().gt(size) {
                assert(span_inside(slabs@, size, (axis + 1) as nat) is None);
                proof {
                    lemma_miss_stays(slabs@, size, (axis + 1) as nat, 3);
                }
                return None;
            }
        } else {
            let rises = slab.lower.lt(slab.upper);
            let (entry, exit) = if rises {
                (slab.lower, slab.upper)
            } else {
                (slab.upper, slab.lower)
            };
            if entry.gt(span.t_min) {
                span.t_min = entry;
                span.min_axis = Some(axis);
                span.min_sign = slab.direction.signum().neg();
            }
            if exit.lt(span.t_max) {
                span.t_max = exit;
                span.max_axis = Some(axis);
                span.max_sign = slab.direction.signum();
            }
            if span.t_min.gt(span.t_max) {
                assert(span_inside(slabs@, size, (axis + 1) as nat) is None);
                proof {
                    lemma_miss_stays(slabs@, size, (axis + 1) as nat, 3);
                }
                return None;
            }
        }
        axis += 1;
    }
    if ray_t.contains(span.t_min) {
        Some(FaceHit { t: span.t_min, normal: face_normal(span.min_axis, span.min_sign) })
    } else if ray_t.contains(span.t_max) {
        Some(FaceHit { t: span.t_max, normal: face_normal(span.max_axis, span.max_sign) })
    } else {
        None
    }
}

/// A ray that has missed the first `n` slabs has missed any more of them.
pub proof fn lemma_miss_stays(slabs: Seq<Slab>, size: Scalar, n: nat, m: nat)
    requires
        n <= m,
        span_inside(slabs, size, n) is None,
    ensures
        span_inside(slabs, size, m) is None,
    decreases m,
{
    if n < m {
        lemma_miss_stays(slabs, size, n, (m - 1) as nat);
    }
}

/// What the slab test reports lies within the range asked for.
pub proof fn lemma_cube_hit_within(slabs: Seq<Slab>, size: Scalar, ray_t: Interval)
    ensures
        cube_hit(slabs, size, ray_t) matches Some(hit) ==> ray_t.contains(hit.t),
{
}

/// The span inside the first `n` slabs is the tightest one: no slab that the
/// ray crosses is entered after the span's entry or left before its exit,
/// the entry is not after the exit, and the face of entry and the face of
/// exit are those of the slab that set them.
pub proof fn lemma_span_is_tightest(slabs: Seq<Slab>, size: Scalar, n: nat)
    requires
        n <= slabs.len() <= usize::MAX,
    ensures
        span_inside(slabs, size, n) matches Some(span) ==> {
            &&& !span.is_void()
            &&& !span.t_min.is_nan()
            &&& !span.t_max.is_nan()
            &&& forall|i: int|
                0 <= i < n && !(#[trigger] slabs[i]).is_parallel() ==> !slabs[i].entry().gt(span.t_min)
                    && !slabs[i].exit().lt(span.t_max)
            &&& forall|i: int| 0 <= i < n && (#[trigger] slabs[i]).is_parallel() ==> !slabs[i].starts_outside(size)
            &&& match span.min_axis {
                Some(a) => a < n && !slabs[a as int].is_parallel() && span.t_min == slabs[a as int].entry()
                    && span.min_sign == slabs[a as int].entry_sign(),
                None => span.t_min == Scalar::neg_infinity(),
            }
            &&& match span.max_axis {
                Some(a) => a < n && !slabs[a as int].is_parallel() && span.t_max == slabs[a as int].exit()
                    && span.max_sign == slabs[a as int].exit_sign(),
                None => span.t_max == Scalar::infinity(),
            }
        },
    decreases n,
{
    if n > 0 {
        lemma_span_is_tightest(slabs, size, (n - 1) as nat);
    }
}

/// A face of entry looks against the ray and a face of exit along it: the
/// outward normal of the face by which a ray enters a slab has the sign
/// opposite to the ray's direction along the axis, and that of the face by
/// which it leaves has the same sign. So a ray from outside meets a face
/// whose outward normal it runs against.
pub proof fn lemma_faces_look_outward(slab: Slab)
    requires
        !slab.direction.is_nan(),
    ensures
        slab.entry_sign().is_sign_negative() != slab.direction.is_sign_negative(),
        slab.exit_sign().is_sign_negative() == slab.direction.is_sign_negative(),
        slab.entry_sign() == slab.exit_sign().negated(),
        slab.exit_sign().absolute() == Scalar::one(),
        slab.entry_sign().absolute() == Scalar::one(),
{
}

/// The normal that the slab test reports is a unit vector along one axis
/// of the cube's frame, wherever the ray crosses a slab at all and its
/// direction along the axes is a number.
pub proof fn lemma_cube_normal_is_axis(slabs: Seq<Slab>, size: Scalar, ray_t: Interval)
    requires
        slabs.len() == 3,
        forall|i: int| 0 <= i < 3 ==> !(#[trigger] slabs[i]).direction.is_nan(),
        exists|i: int|
            0 <= i < 3 && !(#[trigger] slabs[i]).is_parallel() && slabs[i].lower.is_finite()
                && slabs[i].upper.is_finite(),
    ensures
        cube_hit(slabs, size, ray_t) matches Some(hit) ==> exists|a: usize|
            a < 3 && (hit.normal == along(a, Scalar::one()) || hit.normal == along(a, Scalar::one().negated())),
{
    lemma_span_is_tightest(slabs, size, 3);
    match span_inside(slabs, size, 3) {
        Some(span) => {
            let i = choose|i: int|
                0 <= i < 3 && !(#[trigger] slabs[i]).is_parallel() && slabs[i].lower.is_finite()
                    && slabs[i].upper.is_finite();
            assert(!slabs[i].entry().gt(span.t_min));
            assert(!slabs[i].exit().lt(span.t_max));
            assert(span.min_axis is Some);
            assert(span.max_axis is Some);
            let a = span.min_axis->0;
            let b = span.max_axis->0;
            if cube_hit(slabs, size, ray_t) is Some {
                let hit = cube_hit(slabs, size, ray_t)->0;
                if ray_t.contains(span.t_min) {
                    assert(hit.normal == along(a, span.min_sign));
                    assert(hit.normal == along(a, Scalar::one()) || hit.normal == along(a, Scalar::one().negated()));
                } else {
                    assert(hit.normal == along(b, span.max_sign));
                    assert(hit.normal == along(b, Scalar::one()) || hit.normal == along(b, Scalar::one().negated()));
                }
            }
        },
        None => {},
    }
}

} // verus!
