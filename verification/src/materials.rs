//! How a surface answers a ray: what it gives back of the light, what it
//! gives off, and which way the ray goes on.
//!
//! A material either scatters a ray, giving back the light of the scattered
//! ray weighted by its attenuation, or gives off light of its own.

use vstd::prelude::*;
use crate::degenerate::above_tolerance;
use crate::degenerate::Degenerate;
use crate::interval::Interval;
use crate::scalar::Scalar;
use crate::vec3::Color;
use crate::vec3::Direction;
use crate::vec3::Vec3;

verus! {

/// No light: the color of all parts zero.
pub open spec fn spec_black() -> Color {
    Vec3::of(Scalar::zero(), Scalar::zero(), Scalar::zero())
}

/// All of the light: the color of all parts one.
pub open spec fn spec_white() -> Color {
    Vec3::of(Scalar::one(), Scalar::one(), Scalar::one())
}

/// The direction in which a ray goes on: `candidate`, or `normal` where
/// `candidate` is near zero and would make no ray.
pub open spec fn spec_settled(candidate: Direction, normal: Direction) -> Direction {
    if candidate.near_zero() {
        normal
    } else {
        candidate
    }
}

/// No light.
#[verifier::when_used_as_spec(spec_black)]
pub fn black() -> (c: Color)
    ensures
        c == spec_black(),
{
    Vec3::new(Scalar::zero(), Scalar::zero(), Scalar::zero())
}

/// All of the light.
#[verifier::when_used_as_spec(spec_white)]
pub fn white() -> (c: Color)
    ensures
        c == spec_white(),
{
    Vec3::new(Scalar::one(), Scalar::one(), Scalar::one())
}

/// The direction in which a scattered ray goes on.
#[verifier::when_used_as_spec(spec_settled)]
pub fn settled(candidate: Direction, normal: Direction) -> (direction: Direction)
    ensures
        direction == spec_settled(candidate, normal),
{
    if candidate.near_zero() {
        normal
    } else {
        candidate
    }
}

/// A matte surface: it scatters a ray along the normal plus a random unit
/// vector.
#[derive(Clone, Copy, Debug)]
pub struct Lambertian {
    pub albedo: Color,
}

/// A metal surface: it mirrors a ray, and blurs the mirrored direction by
/// `fuzz` times a random unit vector.
#[derive(Clone, Copy, Debug)]
pub struct Metal {
    pub albedo: Color,
    /// Between zero and one.
    pub fuzz: Scalar,
}

/// A clear surface such as glass: it mirrors a ray or lets it through bent.
#[derive(Clone, Copy, Debug)]
pub struct Dielectric {
    pub refraction_index: Scalar,
}

/// A surface that gives off light and scatters none.
#[derive(Clone, Copy, Debug)]
pub struct Light {
    pub color: Color,
}

/// The matter of a medium: it scatters a ray in a random direction.
#[derive(Clone, Copy, Debug)]
pub struct Isotropic {
    pub albedo: Color,
}

impl Lambertian {
    /// The matte surface of the given color.
    pub fn new(albedo: Color) -> (m: Lambertian)
        ensures
            m.albedo == albedo,
    {
        Lambertian { albedo }
    }

    /// What the surface gives back of the light of a scattered ray: its
    /// albedo.
    pub fn attenuation(&self) -> (c: Color)
        ensures
            c == self.albedo,
    {
        self.albedo
    }
}

impl Metal {
    /// The metal surface of the given color. `fuzz` is moved into the range
    /// from zero to one.
    pub fn new(albedo: Color, fuzz: Scalar) -> (m: Metal)
        ensures
            m.albedo == albedo,
            m.fuzz == Interval::unit().clamp(fuzz),
    {
        Metal { albedo, fuzz: Interval::unit().clamp(fuzz) }
    }

    /// What the surface gives back of the light of a scattered ray: its
    /// albedo.
    pub fn attenuation(&self) -> (c: Color)
        ensures
            c == self.albedo,
    {
        self.albedo
    }
}

impl Dielectric {
    /// The refraction index that a ray meets: the index of the surface for
    /// a ray that enters by the front face, and `reciprocal`, one over the
    /// index, for a ray that leaves from inside.
    pub open spec fn spec_index_met(&self, front_face: bool, reciprocal: Scalar) -> Scalar {
        if front_face {
            self.refraction_index
        } else {
            reciprocal
        }
    }

    /// Whether a ray cannot pass the surface and is mirrored whole:
    /// `bend`, the refraction index times the sine of the angle of
    /// incidence, is above one.
    pub open spec fn spec_cannot_pass(bend: Scalar) -> bool {
        bend.gt(Scalar::one())
    }

    /// Whether a ray is mirrored: it cannot pass; or `reflectance`, the
    /// share of the light that is mirrored at its angle, is above `draw`,
    /// a number drawn between zero and one.
    pub open spec fn spec_reflects(bend: Scalar, reflectance: Scalar, draw: Scalar) -> bool {
        Self::spec_cannot_pass(bend) || reflectance.gt(draw)
    }

    /// Accepts a refraction index above the tolerance.
    pub fn validate(refraction_index: Scalar) -> (r: Result<(), Degenerate>)
        ensures
            r is Ok <==> Scalar::tolerance().lt(refraction_index),
            r is Err ==> r == Err::<(), Degenerate>(Degenerate::RefractionIndex),
    {
        above_tolerance(refraction_index, Degenerate::RefractionIndex)
    }

    /// The clear surface of the given refraction index.
    pub fn new(refraction_index: Scalar) -> (m: Dielectric)
        requires
            Scalar::tolerance().lt(refraction_index),
        ensures
            m.refraction_index == refraction_index,
    {
        Dielectric { refraction_index }
    }

    /// What the surface gives back of the light of a scattered ray: all of
    /// it.
    pub fn attenuation(&self) -> (c: Color)
        ensures
            c == white(),
    {
        white()
    }

    /// The refraction index that a ray meets.
    #[verifier::when_used_as_spec(spec_index_met)]
    pub fn index_met(&self, front_face: bool, reciprocal: Scalar) -> (index: Scalar)
        ensures
            index == self.spec_index_met(front_face, reciprocal),
    {
        if front_face {
            self.refraction_index
        } else {
            reciprocal
        }
    }

    /// Whether a ray cannot pass the surface.
    #[verifier::when_used_as_spec(spec_cannot_pass)]
    pub fn cannot_pass(bend: Scalar) -> (r: bool)
        ensures
            r == Self::spec_cannot_pass(bend),
    {
        bend.gt(Scalar::one())
    }

    /// Whether a ray is mirrored, not let through.
    #[verifier::when_used_as_spec(spec_reflects)]
    pub fn reflects(bend: Scalar, reflectance: Scalar, draw: Scalar) -> (r: bool)
        ensures
            r == Self::spec_reflects(bend, reflectance, draw),
    {
        Self::cannot_pass(bend) || reflectance.gt(draw)
    }
}

impl Light {
    /// The surface that gives off light of the given color.
    pub fn new(color: Color) -> (m: Light)
        ensures
            m.color == color,
    {
        Light { color }
    }

    /// The light that the surface gives off: its color.
    pub fn emit(&self) -> (c: Color)
        ensures
            c == self.color,
    {
        self.color
    }
}

impl Isotropic {
    /// The matter of the given color.
    pub fn new(albedo: Color) -> (m: Isotropic)
        ensures
            m.albedo == albedo,
    {
        Isotropic { albedo }
    }

    /// What the matter gives back of the light of a scattered ray: its
    /// albedo.
    pub fn attenuation(&self) -> (c: Color)
        ensures
            c == self.albedo,
    {
        self.albedo
    }
}

/// A scattered ray keeps its direction unless that is near zero: a
/// direction with a component at or above the tolerance in absolute value
/// is the one in which the ray goes on, and only a direction that counts as
/// the zero vector gives way to the normal.
pub proof fn lemma_settled_keeps_direction(candidate: Direction, normal: Direction)
    ensures
        Scalar::tolerance().le(candidate.x.absolute()) || Scalar::tolerance().le(candidate.y.absolute())
            || Scalar::tolerance().le(candidate.z.absolute()) ==> spec_settled(candidate, normal) == candidate,
        candidate.near_zero() ==> spec_settled(candidate, normal) == normal,
        !normal.near_zero() ==> !spec_settled(candidate, normal).near_zero(),
{
}

/// No surface gives back more light than it has of its color: for every
/// albedo whose parts are numbers, what a matte or a metal surface gives
/// back is in no part above the albedo; and what a clear surface gives
/// back is white, whatever its refraction index.
pub proof fn lemma_attenuation_is_bounded(albedo: Color, fuzz: Scalar, refraction_index: Scalar)
    requires
        !albedo.x.is_nan(),
        !albedo.y.is_nan(),
        !albedo.z.is_nan(),
    ensures
        ({
            let matte = Lambertian { albedo }.albedo;
            matte.x.le(albedo.x) && matte.y.le(albedo.y) && matte.z.le(albedo.z)
        }),
        ({
            let metal = Metal { albedo, fuzz }.albedo;
            metal.x.le(albedo.x) && metal.y.le(albedo.y) && metal.z.le(albedo.z)
        }),
        spec_white().x == Scalar::one() && spec_white().y == Scalar::one() && spec_white().z == Scalar::one(),
{
}

/// The blur of a metal surface lies between zero and one, whatever number
/// it was made with.
pub proof fn lemma_fuzz_is_unit(fuzz: Scalar)
    requires
        !fuzz.is_nan(),
    ensures
        Interval::unit().contains(Interval::unit().clamp(fuzz)),
{
}

} // verus!
