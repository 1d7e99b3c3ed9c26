//! The decisions of the camera and of the path integrator.
//!
//! A picture is rendered row by row. Each row has a random generator of
//! its own, seeded by the row's number, so that a picture does not depend
//! on the order in which its rows are rendered. The light along a ray is
//! estimated by following the ray from surface to surface, for at most a
//! given number of rays.

use vstd::prelude::*;
use rand::rngs::SmallRng;
use rand::SeedableRng;
use crate::interval::Interval;
use crate::scalar::Scalar;

verus! {

/// The seed from which the seeds of the rows are counted.
pub const BASE_SEED: u64 = 12345;

/// The bits of `0.001`: the least parameter at which a ray sees a surface.
/// A ray that leaves a surface would else meet that surface again at once.
pub const NEAREST_VISIBLE_BITS: u64 = 0x3F50_624D_D2F1_A9FC;

/// The random generator of the renderer. Nothing is known of what is
/// inside one.
#[verifier::external_type_specification]
#[verifier::external_body]
pub struct ExSmallRng(SmallRng);

/// The seed of the random generator of the pixel row, or of the particle,
/// of the given number.
pub open spec fn spec_seed_of(index: u64) -> u64 {
    (BASE_SEED + index) as u64
}

/// The seed of the random generator of a row.
pub open spec fn spec_row_seed(row: u32) -> u64 {
    spec_seed_of(row as u64)
}

/// The range of the parameters at which a ray sees a surface: from `0.001`
/// on.
pub open spec fn spec_visible() -> Interval {
    Interval { min: Scalar { bits: NEAREST_VISIBLE_BITS }, max: Scalar::infinity() }
}

/// Whether rays start on the lens, not at its centre: the angle of the
/// lens's opening, seen from the plane of focus, is not zero or below.
pub open spec fn spec_lens_is_open(defocus_angle: Scalar) -> bool {
    !defocus_angle.le(Scalar::zero())
}

/// The seed of the random generator of the given number.
#[verifier::when_used_as_spec(spec_seed_of)]
pub fn seed_of(index: u64) -> (seed: u64)
    requires
        index <= u64::MAX - BASE_SEED,
    ensures
        seed == spec_seed_of(index),
        seed == BASE_SEED + index,
{
    BASE_SEED + index
}

/// The seed of the random generator of a row.
#[verifier::when_used_as_spec(spec_row_seed)]
pub fn row_seed(row: u32) -> (seed: u64)
    ensures
        seed == spec_row_seed(row),
        seed == BASE_SEED + row,
{
    seed_of(row as u64)
}

/// The generator that `SmallRng::seed_from_u64` makes of a seed, before
/// any number is drawn from it. The crate computes the generator's state
/// from the seed by wrapping arithmetic and reads nothing else, so the
/// same seed always gives the same generator.
pub uninterp spec fn seeded_from(seed: u64) -> SmallRng;

/// A generator made from a seed, by `SmallRng::seed_from_u64`: the
/// generator of that seed. What the generator draws is not claimed.
#[verifier::external_body]
fn seeded(seed: u64) -> (generator: SmallRng)
    ensures
        generator == seeded_from(seed),
{
    SmallRng::seed_from_u64(seed)
}

/// The random generator of the given number: the one of its seed.
pub fn generator_of(index: u64) -> (generator: SmallRng)
    requires
        index <= u64::MAX - BASE_SEED,
    ensures
        generator == seeded_from(spec_seed_of(index)),
{
    seeded(seed_of(index))
}

/// The random generator of a row: the one of the row's seed.
pub fn row_generator(row: u32) -> (generator: SmallRng)
    ensures
        generator == seeded_from(spec_row_seed(row)),
{
    seeded(row_seed(row))
}

/// The range of the parameters at which a ray sees a surface.
#[verifier::when_used_as_spec(spec_visible)]
pub fn visible() -> (range: Interval)
    ensures
        range == spec_visible(),
{
    Interval::new(Scalar::from_bits(NEAREST_VISIBLE_BITS), Scalar::infinity())
}

/// Whether rays start on the lens, not at its centre.
#[verifier::when_used_as_spec(spec_lens_is_open)]
pub fn lens_is_open(defocus_angle: Scalar) -> (r: bool)
    ensures
        r == spec_lens_is_open(defocus_angle),
{
    !defocus_angle.le(Scalar::zero())
}

/// Two rows never share a seed.
pub proof fn lemma_row_seeds_differ(row: u32, other: u32)
    requires
        row != other,
    ensures
        spec_row_seed(row) != spec_row_seed(other),
{
}

/// What a ray meets.
#[derive(Clone, Copy, Debug, PartialEq, Eq, Structural)]
pub enum Met {
    /// No surface.
    Nothing,
    /// A surface that scatters no ray.
    Emitter,
    /// A surface that scatters the ray.
    Scatterer,
}

/// The light at the end of a path.
#[derive(Clone, Copy, Debug, PartialEq, Eq, Structural)]
pub enum Source {
    /// None: the path was given up.
    Black,
    /// That of the background, in the direction of the last ray.
    Background,
    /// That which the last surface gives off.
    Emission,
}

/// What follows from what a ray met.
#[derive(Clone, Copy, Debug, PartialEq, Eq, Structural)]
pub enum Step {
    /// The path ends with the given light.
    End(Source),
    /// The scattered ray is followed with the given depth, and its light
    /// is weighted by the attenuation of the surface.
    Follow(usize),
}

/// What follows from what a ray of depth `depth` met.
pub open spec fn spec_step(depth: usize, met: Met) -> Step {
    match met {
        Met::Nothing => Step::End(Source::Background),
        Met::Emitter => Step::End(Source::Emission),
        Met::Scatterer => Step::Follow((depth - 1) as usize),
    }
}

/// The path of a ray of depth `depth`, where `met(k)` is what the ray
/// after `k` scatterings meets: the number of rays that are sent, and the
/// light at the path's end. A ray of depth zero is not sent.
pub open spec fn path(depth: nat, met: spec_fn(nat) -> Met, sent: nat) -> (nat, Source)
    decreases depth,
{
    if depth == 0 {
        (sent, Source::Black)
    } else {
        match met(sent) {
            Met::Nothing => (sent + 1, Source::Background),
            Met::Emitter => (sent + 1, Source::Emission),
            Met::Scatterer => path((depth - 1) as nat, met, sent + 1),
        }
    }
}

/// Whether a ray of depth `depth` is given up unsent: `depth` is zero.
pub fn is_spent(depth: usize) -> (r: bool)
    ensures
        r == (depth == 0),
{
    depth == 0
}

/// What follows from what a ray of depth `depth` met.
#[verifier::when_used_as_spec(spec_step)]
pub fn step(depth: usize, met: Met) -> (next: Step)
    requires
        depth > 0,
    ensures
        next == spec_step(depth, met),
{
    match met {
        Met::Nothing => Step::End(Source::Background),
        Met::Emitter => Step::End(Source::Emission),
        Met::Scatterer => Step::Follow(depth - 1),
    }
}

/// A path ends after at most `depth` rays, whatever the rays meet; and it
/// ends in black only where all `depth` rays were scattered.
pub proof fn lemma_path_is_bounded(depth: nat, met: spec_fn(nat) -> Met, sent: nat)
    ensures
        sent <= path(depth, met, sent).0 <= sent + depth,
        path(depth, met, sent).1 == Source::Black ==> path(depth, met, sent).0 == sent + depth,
        path(depth, met, sent).1 == Source::Black <==> forall|k: nat|
            sent <= k < sent + depth ==> #[trigger] met(k) == Met::Scatterer,
    decreases depth,
{
    if depth > 0 {
        if met(sent) == Met::Scatterer {
            lemma_path_is_bounded((depth - 1) as nat, met, sent + 1);
            if path(depth, met, sent).1 == Source::Black {
                assert forall|k: nat| sent <= k < sent + depth implies #[trigger] met(k) == Met::Scatterer by {
                    if k > sent {
                        assert(sent + 1 <= k < sent + 1 + (depth - 1));
                    }
                }
            }
        } else {
            assert(sent <= sent < sent + depth);
        }
    }
}

/// A path takes the step that `step` gives: where the first ray is
/// scattered, the path goes on as that of a ray of one less depth.
pub proof fn lemma_path_follows_step(depth: usize, met: spec_fn(nat) -> Met, sent: nat)
    requires
        depth > 0,
    ensures
        match spec_step(depth, met(sent)) {
            Step::End(source) => path(depth as nat, met, sent) == (sent + 1, source),
            Step::Follow(rest) => path(depth as nat, met, sent) == path(rest as nat, met, sent + 1),
        },
{
}

} // verus!
