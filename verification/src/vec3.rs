//! Triples of numbers, told apart by role.
//!
//! A position, a displacement and a color are each three numbers, and are
//! three different types: [`Point3`], [`Direction`] and [`Color`].

use vstd::prelude::*;
use core::marker::PhantomData;
use crate::degenerate::Degenerate;
use crate::scalar::Scalar;

verus! {

/// The role of a displacement: the difference of two positions.
#[derive(Debug, Clone, Copy, PartialEq, Eq)]
pub struct DirectionType;

/// The role of a position in space.
#[derive(Debug, Clone, Copy, PartialEq, Eq)]
pub struct PointType;

/// The role of a color: red, green and blue.
#[derive(Debug, Clone, Copy, PartialEq, Eq)]
pub struct ColorType;

/// Three numbers in the role `T`.
#[derive(Debug)]
pub struct Vec3<T> {
    pub x: Scalar,
    pub y: Scalar,
    pub z: Scalar,
    pub marker: PhantomData<T>,
}

impl<T> Clone for Vec3<T> {
    fn clone(&self) -> (v: Self)
        ensures
            v == *self,
    {
        Vec3 { x: self.x, y: self.y, z: self.z, marker: PhantomData }
    }
}

impl<T> Copy for Vec3<T> {}

/// A position in space.
pub type Point3 = Vec3<PointType>;

/// A displacement in space.
pub type Direction = Vec3<DirectionType>;

/// A color, by its red, green and blue parts.
pub type Color = Vec3<ColorType>;

impl<T> Vec3<T> {
    /// The triple of the given components.
    pub open spec fn of(x: Scalar, y: Scalar, z: Scalar) -> Vec3<T> {
        Vec3 { x, y, z, marker: PhantomData }
    }

    /// The component at `i`: `x`, `y`, `z` at 0, 1, 2.
    pub open spec fn spec_component(&self, i: usize) -> Scalar {
        if i == 0 {
            self.x
        } else if i == 1 {
            self.y
        } else {
            self.z
        }
    }

    /// The triple with the component at `i` replaced by `value`.
    pub open spec fn replaced(&self, i: usize, value: Scalar) -> Vec3<T> {
        if i == 0 {
            Vec3::of(value, self.y, self.z)
        } else if i == 1 {
            Vec3::of(self.x, value, self.z)
        } else {
            Vec3::of(self.x, self.y, value)
        }
    }

    /// Each component with its sign flipped.
    pub open spec fn negated(&self) -> Vec3<T> {
        Vec3::of(self.x.negated(), self.y.negated(), self.z.negated())
    }

    /// Whether the triple counts as the zero vector: each component is
    /// below the tolerance in absolute value.
    pub open spec fn spec_near_zero(&self) -> bool {
        &&& self.x.absolute().lt(Scalar::tolerance())
        &&& self.y.absolute().lt(Scalar::tolerance())
        &&& self.z.absolute().lt(Scalar::tolerance())
    }

    /// The triple of the given components.
    pub fn new(x: Scalar, y: Scalar, z: Scalar) -> (v: Vec3<T>)
        ensures
            v == Vec3::<T>::of(x, y, z),
    {
        Vec3 { x, y, z, marker: PhantomData }
    }

    /// The component at `i`.
    #[verifier::when_used_as_spec(spec_component)]
    pub fn component(&self, i: usize) -> (c: Scalar)
        requires
            i < 3,
        ensures
            c == self.spec_component(i),
    {
        if i == 0 {
            self.x
        } else if i == 1 {
            self.y
        } else {
            self.z
        }
    }

    /// The triple with the component at `i` replaced by `value`.
    #[verifier::when_used_as_spec(replaced)]
    pub fn with_component(&self, i: usize, value: Scalar) -> (v: Vec3<T>)
        requires
            i < 3,
        ensures
            v == self.replaced(i, value),
            v.component(i) == value,
            forall|j: usize| j < 3 && j != i ==> v.component(j) == self.component(j),
    {
        if i == 0 {
            Vec3::new(value, self.y, self.z)
        } else if i == 1 {
            Vec3::new(self.x, value, self.z)
        } else {
            Vec3::new(self.x, self.y, value)
        }
    }

    /// `-self`.
    pub fn neg(&self) -> (v: Vec3<T>)
        ensures
            v == self.negated(),
    {
        Vec3::new(self.x.neg(), self.y.neg(), self.z.neg())
    }

    /// Whether the triple counts as the zero vector.
    #[verifier::when_used_as_spec(spec_near_zero)]
    pub fn near_zero(&self) -> (r: bool)
        ensures
            r == self.spec_near_zero(),
    {
        let epsilon = Scalar::tolerance();
        self.x.abs().lt(epsilon) && self.y.abs().lt(epsilon) && self.z.abs().lt(epsilon)
    }

    /// Whether the triple counts as the zero vector; the same test as
    /// [`Vec3::near_zero`].
    pub fn is_zero(&self) -> (r: bool)
        ensures
            r == self.spec_near_zero(),
    {
        self.near_zero()
    }
}

/// What counts as the zero vector is a matter of size alone: a vector and
/// its opposite count alike, a vector with one component at or above the
/// tolerance in absolute value does not count, and neither does one with a
/// component that is a NaN.
pub proof fn lemma_near_zero_is_by_size<T>(v: Vec3<T>)
    ensures
        v.near_zero() == v.negated().near_zero(),
        Scalar::tolerance().le(v.x.absolute()) || Scalar::tolerance().le(v.y.absolute())
            || Scalar::tolerance().le(v.z.absolute()) ==> !v.near_zero(),
        v.x.is_nan() || v.y.is_nan() || v.z.is_nan() ==> !v.near_zero(),
        Vec3::<T>::of(Scalar::zero(), Scalar::zero(), Scalar::zero()).near_zero(),
        !Vec3::<T>::of(Scalar::zero(), Scalar::one().negated(), Scalar::zero()).near_zero(),
{
}

/// Three directions that span space.
#[derive(Clone, Copy, Debug)]
pub struct Basis {
    pub x: Direction,
    pub y: Direction,
    pub z: Direction,
}

impl Basis {
    /// The direction at `i`: `x`, `y`, `z` at 0, 1, 2.
    pub open spec fn spec_axis(&self, i: usize) -> Direction {
        if i == 0 {
            self.x
        } else if i == 1 {
            self.y
        } else {
            self.z
        }
    }

    /// Accepts three directions as a basis where their triple product
    /// `x . (y x z)` is not below the tolerance.
    pub fn validate(triple_product: Scalar) -> (r: Result<(), Degenerate>)
        ensures
            r == if triple_product.ge(Scalar::tolerance()) {
                Ok::<(), Degenerate>(())
            } else {
                Err::<(), Degenerate>(Degenerate::Basis)
            },
    {
        if triple_product.ge(Scalar::tolerance()) {
            Ok(())
        } else {
            Err(Degenerate::Basis)
        }
    }

    /// The basis of the three directions, whose triple product is
    /// `triple_product`.
    pub fn new(x: Direction, y: Direction, z: Direction, triple_product: Scalar) -> (basis: Basis)
        requires
            triple_product.ge(Scalar::tolerance()),
        ensures
            basis.x == x,
            basis.y == y,
            basis.z == z,
    {
        Basis { x, y, z }
    }

    /// The direction at `i`.
    #[verifier::when_used_as_spec(spec_axis)]
    pub fn axis(&self, i: usize) -> (d: Direction)
        requires
            i < 3,
        ensures
            d == self.spec_axis(i),
    {
        if i == 0 {
            self.x
        } else if i == 1 {
            self.y
        } else {
            self.z
        }
    }
}

/// Whether a random vector of the cube from -1 to 1, of squared length
/// `length_squared`, is kept to make a random unit vector: it lies in the
/// unit ball, and is long enough to be scaled to length one.
pub open spec fn spec_in_unit_ball(length_squared: Scalar) -> bool {
    Scalar::tolerance().lt(length_squared) && length_squared.le(Scalar::one())
}

/// Whether a random point of the square from -1 to 1, of squared distance
/// `length_squared` from the centre, is kept as a random point of the unit
/// disk: it lies strictly inside the disk.
pub open spec fn spec_in_unit_disk(length_squared: Scalar) -> bool {
    length_squared.lt(Scalar::one())
}

/// Whether a random vector is kept to make a random unit vector.
#[verifier::when_used_as_spec(spec_in_unit_ball)]
pub fn in_unit_ball(length_squared: Scalar) -> (r: bool)
    ensures
        r == spec_in_unit_ball(length_squared),
{
    Scalar::tolerance().lt(length_squared) && length_squared.le(
        Scalar::one(),
    )
}

/// Whether a random point is kept as a random point of the unit disk.
#[verifier::when_used_as_spec(spec_in_unit_disk)]
pub fn in_unit_disk(length_squared: Scalar) -> (r: bool)
    ensures
        r == spec_in_unit_disk(length_squared),
{
    length_squared.lt(Scalar::one())
}

} // verus!
