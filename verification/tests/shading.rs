use rand::rngs::SmallRng;
use rand::{Rng, SeedableRng};
use rt::camera::{
    generator_of, is_spent, lens_is_open, row_generator, row_seed, seed_of, step, visible, Met, Source, Step,
    BASE_SEED, NEAREST_VISIBLE_BITS,
};
use rt::degenerate::Degenerate;
use rt::materials::{black, settled, white, Dielectric, Isotropic, Lambertian, Light, Metal};
use rt::scalar::Scalar;
use rt::vec3::{Color, Direction, Vec3};
use rt::viewport;

fn s(x: f64) -> Scalar {
    Scalar::from_bits(x.to_bits())
}

fn f(x: Scalar) -> f64 {
    f64::from_bits(x.to_bits())
}

fn color(r: f64, g: f64, b: f64) -> Color {
    Vec3::new(s(r), s(g), s(b))
}

fn direction(x: f64, y: f64, z: f64) -> Direction {
    Vec3::new(s(x), s(y), s(z))
}

fn triple<T>(v: Vec3<T>) -> (f64, f64, f64) {
    (f(v.x), f(v.y), f(v.z))
}

#[test]
fn black_and_white() {
    assert_eq!(triple(black()), (0.0, 0.0, 0.0));
    assert_eq!(triple(white()), (1.0, 1.0, 1.0));
}

#[test]
fn matte_and_metal_give_back_their_albedo() {
    let albedo = color(0.8, 0.6, 0.2);
    assert_eq!(triple(Lambertian::new(albedo).attenuation()), (0.8, 0.6, 0.2));
    assert_eq!(triple(Metal::new(albedo, s(0.3)).attenuation()), (0.8, 0.6, 0.2));
    assert_eq!(triple(Isotropic::new(albedo).attenuation()), (0.8, 0.6, 0.2));
    let given_back = Metal::new(albedo, s(0.3)).attenuation();
    assert!(f(given_back.x) <= 0.8 && f(given_back.y) <= 0.6 && f(given_back.z) <= 0.2);
}

#[test]
fn glass_gives_back_all_light() {
    for &index in [1.0, 1.5, 2.4].iter() {
        assert!(Dielectric::validate(s(index)).is_ok());
        let glass = Dielectric::new(s(index));
        assert_eq!(f(glass.refraction_index), index);
        assert_eq!(triple(glass.attenuation()), (1.0, 1.0, 1.0));
    }
    assert_eq!(Dielectric::validate(s(0.0)), Err(Degenerate::RefractionIndex));
}

#[test]
fn metal_fuzz_is_moved_into_the_unit_range() {
    let albedo = color(0.5, 0.5, 0.5);
    assert_eq!(f(Metal::new(albedo, s(0.3)).fuzz), 0.3);
    assert_eq!(f(Metal::new(albedo, s(-2.0)).fuzz), 0.0);
    assert_eq!(f(Metal::new(albedo, s(7.0)).fuzz), 1.0);
    assert_eq!(f(Metal::new(albedo, s(1.0)).fuzz), 1.0);
    assert!(f(Metal::new(albedo, s(f64::NAN)).fuzz).is_nan());
}

#[test]
fn light_gives_off_its_color() {
    assert_eq!(triple(Light::new(color(4.0, 3.0, 2.0)).emit()), (4.0, 3.0, 2.0));
}

#[test]
fn glass_mirrors_what_cannot_pass() {
    // Total internal reflection, whatever is drawn.
    assert!(Dielectric::cannot_pass(s(1.2)));
    assert!(!Dielectric::cannot_pass(s(1.0)));
    assert!(!Dielectric::cannot_pass(s(f64::NAN)));
    assert!(Dielectric::reflects(s(1.2), s(0.0), s(0.99)));
    // The reflectance decides otherwise.
    assert!(Dielectric::reflects(s(0.4), s(0.5), s(0.25)));
    assert!(!Dielectric::reflects(s(0.4), s(0.5), s(0.75)));
    assert!(!Dielectric::reflects(s(1.0), s(0.5), s(0.5)));
    assert!(!Dielectric::reflects(s(f64::NAN), s(f64::NAN), s(0.5)));
}

#[test]
fn degenerate_scatter_falls_back_to_the_normal() {
    let normal = direction(0.0, 1.0, 0.0);
    assert_eq!(triple(settled(direction(0.0, 0.0, 0.0), normal)), (0.0, 1.0, 0.0));
    assert_eq!(triple(settled(direction(1e-9, -1e-9, 1e-9), normal)), (0.0, 1.0, 0.0));
    assert_eq!(triple(settled(direction(0.3, 0.4, 0.5), normal)), (0.3, 0.4, 0.5));
}

#[test]
fn scattered_directions_far_from_zero_are_kept() {
    // Matte: the sum of the normal (0, 0.6, 0) and a unit vector.
    let matte = settled(direction(0.0, -0.4, -0.8), direction(0.0, 0.6, 0.0));
    assert_eq!(triple(matte), (0.0, -0.4, -0.8));
    // Metal without blur: the mirrored direction.
    let metal = settled(direction(0.0, -0.6, -0.8), direction(0.0, 0.0, 1.0));
    assert_eq!(triple(metal), (0.0, -0.6, -0.8));
    // Glass that cannot pass: the mirrored direction.
    let glass = settled(direction(0.0, -0.8, -0.6), direction(0.0, 0.0, -1.0));
    assert_eq!(triple(glass), (0.0, -0.8, -0.6));
    let down = settled(direction(0.0, -1.0, 0.0), direction(0.0, 1.0, 0.0));
    assert_eq!(triple(down), (0.0, -1.0, 0.0));
}

#[test]
fn glass_is_met_by_its_index_from_outside() {
    let glass = Dielectric::new(s(1.5));
    assert_eq!(f(glass.index_met(true, s(1.0 / 1.5))), 1.5);
    assert_eq!(f(glass.index_met(false, s(1.0 / 1.5))), 1.0 / 1.5);
}

#[test]
fn rows_are_seeded_by_their_number() {
    assert_eq!(BASE_SEED, 12345);
    assert_eq!(row_seed(0), 12345);
    assert_eq!(row_seed(1), 12346);
    assert_eq!(row_seed(224), 12569);
    assert_eq!(row_seed(u32::MAX), 12345 + u32::MAX as u64);
    assert_ne!(row_seed(3), row_seed(4));
    assert_eq!(row_seed(3), row_seed(3));
}

#[test]
fn rays_see_from_a_thousandth_on() {
    assert_eq!(NEAREST_VISIBLE_BITS, 0.001f64.to_bits());
    assert_eq!(f(visible().min), 0.001);
    assert_eq!(f(visible().max), f64::INFINITY);
}

#[test]
fn lens_opens_above_zero() {
    assert!(lens_is_open(s(0.6)));
    assert!(!lens_is_open(s(0.0)));
    assert!(!lens_is_open(s(-0.0)));
    assert!(!lens_is_open(s(-1.0)));
    assert!(lens_is_open(s(f64::NAN)));
}

#[test]
fn path_steps() {
    assert!(is_spent(0));
    assert!(!is_spent(1));
    assert_eq!(step(1, Met::Nothing), Step::End(Source::Background));
    assert_eq!(step(50, Met::Emitter), Step::End(Source::Emission));
    assert_eq!(step(50, Met::Scatterer), Step::Follow(49));
    assert_eq!(step(1, Met::Scatterer), Step::Follow(0));
}

#[test]
fn path_ends_after_its_depth() {
    // A hall of mirrors: every ray is scattered.
    let mut depth = 50usize;
    let mut sent = 0;
    let source = loop {
        if is_spent(depth) {
            break Source::Black;
        }
        sent += 1;
        match step(depth, Met::Scatterer) {
            Step::End(source) => break source,
            Step::Follow(rest) => depth = rest,
        }
    };
    assert_eq!(source, Source::Black);
    assert_eq!(sent, 50);
}

#[test]
fn viewport_is_validated() {
    let u = direction(1.0, 0.0, 0.0);
    let v = direction(0.0, 1.0, 0.0);
    let nothing = direction(0.0, 0.0, 0.0);
    assert!(viewport::validate(s(2.0), &u, &v).is_ok());
    assert_eq!(viewport::validate(s(1e-8), &u, &v), Err(Degenerate::ViewportHeight));
    assert_eq!(viewport::validate(s(2.0), &nothing, &v), Err(Degenerate::CameraU));
    assert_eq!(viewport::validate(s(2.0), &u, &nothing), Err(Degenerate::CameraV));
    assert_eq!(viewport::validate(s(0.0), &nothing, &nothing), Err(Degenerate::ViewportHeight));
    assert!(viewport::validate(s(2.0), &direction(0.0, 0.0, -1.0), &direction(0.0, -1.0, 0.0)).is_ok());
}

#[test]
fn seeds_count_from_the_base() {
    assert_eq!(seed_of(0), 12345);
    assert_eq!(seed_of(99), 12444);
    assert_eq!(seed_of(u64::MAX - 12345), u64::MAX);
}

#[test]
fn a_row_draws_the_same_numbers_every_time() {
    let mut one = row_generator(7);
    let mut other = row_generator(7);
    for _ in 0..100 {
        assert_eq!(one.random::<u64>(), other.random::<u64>());
    }
    let mut again = row_generator(7);
    let draws: Vec<f64> = (0..10).map(|_| again.random_range(-0.5..0.5)).collect();
    let mut once_more = row_generator(7);
    let same: Vec<f64> = (0..10).map(|_| once_more.random_range(-0.5..0.5)).collect();
    assert_eq!(draws, same);
}

#[test]
fn a_row_draws_from_the_generator_of_its_seed() {
    let mut row = row_generator(7);
    let mut direct = SmallRng::seed_from_u64(12345 + 7);
    let mut particle = generator_of(7);
    for _ in 0..100 {
        let drawn = row.random::<u64>();
        assert_eq!(drawn, direct.random::<u64>());
        assert_eq!(drawn, particle.random::<u64>());
    }
}

#[test]
fn two_rows_draw_different_numbers() {
    let mut one = row_generator(7);
    let mut other = row_generator(8);
    let first: Vec<u64> = (0..8).map(|_| one.random::<u64>()).collect();
    let second: Vec<u64> = (0..8).map(|_| other.random::<u64>()).collect();
    assert_ne!(first, second);
}
