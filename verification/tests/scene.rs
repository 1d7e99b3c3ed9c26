use rt::camera::{is_spent, step, visible, Met, Source, Step};
use rt::hittables::sphere::{nearest_root, Sphere};
use rt::hittables::{nearest_within, HitRecord};
use rt::materials::Lambertian;
use rt::scalar::Scalar;
use rt::vec3::{Direction, Point3, Vec3};

fn s(x: f64) -> Scalar {
    Scalar::from_bits(x.to_bits())
}

fn f(x: Scalar) -> f64 {
    f64::from_bits(x.to_bits())
}

fn dot(a: [f64; 3], b: [f64; 3]) -> f64 {
    a[0] * b[0] + a[1] * b[1] + a[2] * b[2]
}

fn xyz<T>(v: &Vec3<T>) -> [f64; 3] {
    [f(v.x), f(v.y), f(v.z)]
}

/// Where the ray from the origin along the unit vector `d` meets `sphere`.
fn meet(sphere: &Sphere<Lambertian>, d: [f64; 3]) -> Option<HitRecord<Lambertian>> {
    let c = xyz(&sphere.center);
    let r = f(sphere.radius);
    let a = dot(d, d);
    let h = dot(d, c);
    let discriminant = h * h - a * (dot(c, c) - r * r);
    let root = discriminant.sqrt();
    let t = f(nearest_root(
        s(discriminant),
        s((h - root) / a),
        s((h + root) / a),
        &rt::interval::Interval::full(),
    )?);
    let p = [d[0] * t, d[1] * t, d[2] * t];
    let n = [(p[0] - c[0]) / r, (p[1] - c[1]) / r, (p[2] - c[2]) / r];
    let point: Point3 = Vec3::new(s(p[0]), s(p[1]), s(p[2]));
    let normal: Direction = Vec3::new(s(n[0]), s(n[1]), s(n[2]));
    Some(HitRecord::new(point, normal, s(t), sphere.material, s(dot(d, n))))
}

/// What the ray through the point `(x, y, -1)` of the viewport carries, in
/// the world of a small sphere resting on a large one, at depth one.
fn carried(x: f64, y: f64) -> (Source, Option<f64>) {
    let grey: rt::vec3::Color = Vec3::new(s(0.5), s(0.5), s(0.5));
    let small = Sphere::new(Vec3::new(s(0.0), s(0.0), s(-1.0)), s(0.5), Lambertian::new(grey));
    let ground = Sphere::new(Vec3::new(s(0.0), s(-100.5), s(-1.0)), s(100.0), Lambertian::new(grey));

    let length = (x * x + y * y + 1.0).sqrt();
    let d = [x / length, y / length, -1.0 / length];

    let mut depth = 1usize;
    if is_spent(depth) {
        return (Source::Black, None);
    }
    let mut hits = Vec::new();
    for sphere in [&small, &ground] {
        if let Some(hit) = meet(sphere, d) {
            hits.push(hit);
        }
    }
    let found = nearest_within(hits, &visible());
    let met = match &found {
        Some(_) => Met::Scatterer,
        None => Met::Nothing,
    };
    match step(depth, met) {
        Step::End(source) => (source, None),
        Step::Follow(rest) => {
            depth = rest;
            assert!(is_spent(depth));
            (Source::Black, found.map(|hit| f(hit.t)))
        }
    }
}

#[test]
fn upper_rays_see_the_sky() {
    assert_eq!(carried(-0.5, 0.5), (Source::Background, None));
    assert_eq!(carried(0.5, 0.5), (Source::Background, None));
    assert_eq!(carried(0.0, 0.6), (Source::Background, None));
}

#[test]
fn lower_rays_meet_a_sphere() {
    for &x in [-0.5, 0.5].iter() {
        let (source, t) = carried(x, -0.5);
        assert_eq!(source, Source::Black);
        assert!(t.unwrap() > 0.001);
    }
}

#[test]
fn central_rays_meet_the_small_sphere() {
    // Straight ahead the small sphere is met at its distance less its
    // radius, before the ground behind it.
    let (source, t) = carried(0.0, 0.0);
    assert_eq!(source, Source::Black);
    assert_eq!(t, Some(0.5));
    let (_, low) = carried(0.0, -0.3);
    let d_y = -0.3 / (0.09f64 + 1.0).sqrt();
    assert!(low.unwrap() < 1.0);
    assert!(low.unwrap() * d_y > -0.5);
}
