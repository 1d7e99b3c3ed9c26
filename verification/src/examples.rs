//! The sample pictures: which world, seen through which camera, is written
//! under which name.

use vstd::prelude::*;
use vstd::string::StringExecFns;
use crate::text::decimal;
use crate::text::push_decimal;

verus! {

/// The sample worlds.
#[derive(Clone, Copy, Debug, PartialEq, Eq, Structural)]
pub enum Scene {
    /// Two matte spheres.
    Lambertian,
    /// A matte sphere between two polished metal ones.
    ShinyMetal,
    /// A matte sphere between two brushed metal ones.
    DullMetal,
    /// A matte sphere between a hollow glass sphere and a metal one.
    Glass,
}

/// The sample camera set-ups.
#[derive(Clone, Copy, Debug, PartialEq, Eq, Structural)]
pub enum Viewpoint {
    /// From the front, with a narrow field of view.
    Front,
    /// From above and to the left, with a field of view of ninety degrees.
    WideAngle,
    /// From above and to the left, with a narrow field of view.
    ReducedFov,
    /// As `ReducedFov`, through a lens with an open aperture.
    Defocus,
}

/// One picture to render.
#[derive(Clone, Copy, Debug, PartialEq, Eq, Structural)]
pub struct Shot {
    pub scene: Scene,
    pub view: Viewpoint,
    /// The picture is written as `example_` and this number.
    pub number: u64,
    pub max_depth: usize,
    pub samples_per_pixel: usize,
}

/// The world of the picture at place `i` of the first series.
pub open spec fn book_1_scene(i: int) -> Scene {
    if i == 0 {
        Scene::Lambertian
    } else if i == 1 {
        Scene::ShinyMetal
    } else if i == 2 {
        Scene::DullMetal
    } else {
        Scene::Glass
    }
}

/// The camera of the picture at place `i` of the first series.
pub open spec fn book_1_view(i: int) -> Viewpoint {
    if i <= 3 {
        Viewpoint::Front
    } else if i == 4 {
        Viewpoint::WideAngle
    } else if i == 5 {
        Viewpoint::ReducedFov
    } else {
        Viewpoint::Defocus
    }
}

/// The first series: seven pictures, numbered from one. The first four show
/// the four worlds from the front; the last three show the glass world
/// through the three other cameras.
pub open spec fn book_1_shots(max_depth: usize, samples_per_pixel: usize) -> Seq<Shot> {
    Seq::new(
        7,
        |i: int|
            Shot {
                scene: book_1_scene(i),
                view: book_1_view(i),
                number: (i + 1) as u64,
                max_depth,
                samples_per_pixel,
            },
    )
}

/// The directory under which the first series is written.
pub fn book_directory() -> (s: &'static str)
    ensures
        s@ == seq!['b', 'o', 'o', 'k'],
{
    proof {
        reveal_strlit("book");
    }
    let s = "book";
    assert(s@ =~= seq!['b', 'o', 'o', 'k']);
    s
}

impl Shot {
    /// The name of the picture: `example_` and its number.
    pub open spec fn spec_name(&self) -> Seq<char> {
        seq!['e', 'x', 'a', 'm', 'p', 'l', 'e', '_'] + decimal(self.number as nat)
    }

    /// The name of the picture, without directory or extension.
    pub fn name(&self) -> (s: String)
        ensures
            s@ == self.spec_name(),
    {
        proof {
            reveal_strlit("example_");
        }
        let mut s = String::from_str("example_");
        assert(s@ =~= seq!['e', 'x', 'a', 'm', 'p', 'l', 'e', '_']);
        push_decimal(&mut s, self.number);
        s
    }
}

/// The pictures of the first series, in the order in which they are
/// rendered. Rendering stops at the first one that cannot be written.
pub fn book_1(max_depth: usize, samples_per_pixel: usize) -> (shots: Vec<Shot>)
    ensures
        shots@ == book_1_shots(max_depth, samples_per_pixel),
{
    let mut shots: Vec<Shot> = Vec::new();
    shots.push(Shot { scene: Scene::Lambertian, view: Viewpoint::Front, number: 1, max_depth, samples_per_pixel });
    shots.push(Shot { scene: Scene::ShinyMetal, view: Viewpoint::Front, number: 2, max_depth, samples_per_pixel });
    shots.push(Shot { scene: Scene::DullMetal, view: Viewpoint::Front, number: 3, max_depth, samples_per_pixel });
    shots.push(Shot { scene: Scene::Glass, view: Viewpoint::Front, number: 4, max_depth, samples_per_pixel });
    shots.push(Shot { scene: Scene::Glass, view: Viewpoint::WideAngle, number: 5, max_depth, samples_per_pixel });
    shots.push(Shot { scene: Scene::Glass, view: Viewpoint::ReducedFov, number: 6, max_depth, samples_per_pixel });
    shots.push(Shot { scene: Scene::Glass, view: Viewpoint::Defocus, number: 7, max_depth, samples_per_pixel });
    assert(shots@ =~= book_1_shots(max_depth, samples_per_pixel));
    shots
}

} // verus!
