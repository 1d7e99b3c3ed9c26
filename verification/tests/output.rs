use rt::color::{is_lit, quantize, Rgb, BRIGHTEST_BITS};
use rt::degenerate::{above_tolerance, Degenerate};
use rt::examples::{book_1, book_directory, Scene, Viewpoint};
use rt::image::Image;
use rt::ppm::{encode, write_header, write_row};
use rt::progress::{columns_of, compose, show};
use rt::scalar::Scalar;
use rt::text::{push_decimal, to_decimal};
use rt::vec3::{Color, Vec3};

fn s(x: f64) -> Scalar {
    Scalar::from_bits(x.to_bits())
}

fn by_hardware(x: f64) -> u8 {
    (256.0 * x.clamp(0.0, 0.999)) as u8
}

#[test]
fn decimal_numerals() {
    assert_eq!(to_decimal(0), "0");
    assert_eq!(to_decimal(7), "7");
    assert_eq!(to_decimal(10), "10");
    assert_eq!(to_decimal(255), "255");
    assert_eq!(to_decimal(1234567890), "1234567890");
    assert_eq!(to_decimal(u64::MAX), "18446744073709551615");
    let mut text = String::from("w=");
    push_decimal(&mut text, 400);
    assert_eq!(text, "w=400");
}

#[test]
fn image_has_at_least_one_row() {
    let image = Image::new(400, 225);
    assert_eq!((image.width, image.height), (400, 225));
    let flat = Image::new(400, 0);
    assert_eq!((flat.width, flat.height), (400, 1));
    let empty = Image::new(0, 0);
    assert_eq!((empty.width, empty.height), (0, 1));
}

#[test]
fn image_refuses_a_low_aspect_ratio() {
    assert!(Image::validate(s(16.0 / 9.0)).is_ok());
    assert_eq!(Image::validate(s(1e-8)), Err(Degenerate::AspectRatio));
    assert_eq!(Image::validate(s(0.0)), Err(Degenerate::AspectRatio));
    assert_eq!(Image::validate(s(-2.0)), Err(Degenerate::AspectRatio));
    assert_eq!(Image::validate(s(f64::NAN)), Err(Degenerate::AspectRatio));
}

#[test]
fn tolerance_is_exclusive() {
    assert_eq!(above_tolerance(s(1e-8), Degenerate::Size), Err(Degenerate::Size));
    assert_eq!(above_tolerance(s(1.0000001e-8), Degenerate::Size), Ok(()));
    assert_eq!(above_tolerance(s(f64::INFINITY), Degenerate::Axis), Ok(()));
    assert_eq!(above_tolerance(s(f64::NAN), Degenerate::Axis), Err(Degenerate::Axis));
}

#[test]
fn refusals_have_their_messages() {
    assert_eq!(Degenerate::Radius.message(), "Radius is too small");
    assert_eq!(Degenerate::Size.message(), "Size is too small");
    assert_eq!(Degenerate::Span.message(), "Spanning vector(s) too close to zero");
    assert_eq!(
        Degenerate::Parallel.message(),
        "Normal vector too close to zero: spanning vectors too close to parallel?"
    );
    assert_eq!(Degenerate::Normal.message(), "Normal vector too close to zero");
    assert_eq!(Degenerate::Axis.message(), "Axis vector is too small");
    assert_eq!(Degenerate::RefractionIndex.message(), "Refraction index is too small");
    assert_eq!(Degenerate::AspectRatio.message(), "Aspect ratio is too low");
    assert_eq!(Degenerate::ViewportHeight.message(), "Height of viewport is too small");
    assert_eq!(Degenerate::CameraU.message(), "camera_u direction vector too close to zero");
    assert_eq!(Degenerate::CameraV.message(), "camera_v direction vector too close to zero");
    assert_eq!(Degenerate::RayDirection.message(), "Direction vector is too close to zero");
    assert_eq!(Degenerate::Basis.message(), "Invalid basis: vectors not independent enough");
}

#[test]
fn quantize_known_values() {
    assert_eq!(BRIGHTEST_BITS, 0.999f64.to_bits());
    assert_eq!(quantize(s(0.0)), 0);
    assert_eq!(quantize(s(-0.0)), 0);
    assert_eq!(quantize(s(0.5)), 128);
    assert_eq!(quantize(s(0.25)), 64);
    assert_eq!(quantize(s(0.999)), 255);
    assert_eq!(quantize(s(1.0)), 255);
    assert_eq!(quantize(s(1e9)), 255);
    assert_eq!(quantize(s(f64::INFINITY)), 255);
    assert_eq!(quantize(s(-3.0)), 0);
    assert_eq!(quantize(s(f64::NAN)), 0);
    assert_eq!(quantize(s(1.0 / 256.0)), 1);
    assert_eq!(quantize(s(0.00390624)), 0);
    assert_eq!(quantize(s(5e-324)), 0);
}

#[test]
fn quantize_agrees_with_the_hardware() {
    let mut x = 0.0f64;
    while x < 1.1 {
        assert_eq!(quantize(s(x)), by_hardware(x), "at {}", x);
        x += 0.000137;
    }
    for k in 0..=256u32 {
        let edge = k as f64 / 256.0;
        assert_eq!(quantize(s(edge)), by_hardware(edge), "at {}", edge);
        let below = f64::from_bits(edge.to_bits().wrapping_sub(1));
        if k > 0 {
            assert_eq!(quantize(s(below)), by_hardware(below), "below {}", edge);
        }
        let above = f64::from_bits(edge.to_bits() + 1);
        assert_eq!(quantize(s(above)), by_hardware(above), "above {}", edge);
    }
    let mut bits = 1u64;
    while bits < 0x4000_0000_0000_0000 {
        let x = f64::from_bits(bits);
        assert_eq!(quantize(s(x)), by_hardware(x), "at bits {:x}", bits);
        bits = bits * 3 + 1;
    }
}

#[test]
fn gamma_is_taken_of_what_is_lit() {
    assert!(is_lit(s(0.25)));
    assert!(is_lit(s(5e-324)));
    assert!(!is_lit(s(0.0)));
    assert!(!is_lit(s(-0.0)));
    assert!(!is_lit(s(-1.0)));
    assert!(!is_lit(s(f64::NAN)));
}

#[test]
fn pixel_of_a_color() {
    let color: Color = Vec3::new(s(1.0), s(0.5), s(0.0));
    assert_eq!(Rgb::of(color), Rgb { r: 255, g: 128, b: 0 });
    let mut line = String::new();
    Rgb::of(color).write(&mut line);
    assert_eq!(line, "255 128 0\n");
    Rgb { r: 0, g: 7, b: 42 }.write(&mut line);
    assert_eq!(line, "255 128 0\n0 7 42\n");
}

#[test]
fn ppm_header() {
    let mut text = String::new();
    write_header(&Image::new(400, 225), &mut text);
    assert_eq!(text, "P3\n400 225\n255\n");
}

#[test]
fn ppm_rows() {
    let mut text = String::from("#");
    write_row(&vec![Rgb { r: 1, g: 2, b: 3 }, Rgb { r: 40, g: 50, b: 60 }], &mut text);
    assert_eq!(text, "#1 2 3\n40 50 60\n");
    write_row(&vec![], &mut text);
    assert_eq!(text, "#1 2 3\n40 50 60\n");
}

#[test]
fn ppm_whole_file() {
    let rows = vec![
        vec![Rgb { r: 255, g: 0, b: 0 }, Rgb { r: 0, g: 255, b: 0 }],
        vec![Rgb { r: 0, g: 0, b: 255 }, Rgb { r: 128, g: 128, b: 128 }],
    ];
    let text = encode(&Image::new(2, 2), &rows);
    assert_eq!(text, "P3\n2 2\n255\n255 0 0\n0 255 0\n0 0 255\n128 128 128\n");
    assert_eq!(encode(&Image::new(3, 1), &vec![]), "P3\n3 1\n255\n");
}

#[test]
fn ppm_is_the_same_for_the_same_picture() {
    let rows = vec![vec![Rgb { r: 9, g: 8, b: 7 }]];
    assert_eq!(encode(&Image::new(1, 1), &rows), encode(&Image::new(1, 1), &rows));
}

#[test]
fn progress_line_half_way() {
    let line = compose(5, 10, "Rendering", 80);
    let expected = format!(
        "\r     \x1b[1mRendering\x1b[0m [{}>{}]  50%",
        "=".repeat(15),
        " ".repeat(17)
    );
    assert_eq!(line, expected);
}

#[test]
fn progress_line_at_both_ends() {
    let start = compose(0, 10, "Rendering", 80);
    assert_eq!(start, format!("\r     \x1b[1mRendering\x1b[0m [>{}]   0%", " ".repeat(32)));
    let done = compose(10, 10, "Rendering", 80);
    assert_eq!(done, format!("\r     \x1b[1mRendering\x1b[0m [{}] 100%", "=".repeat(33)));
    let first = compose(1, 400, "Rendering", 80);
    assert_eq!(first, format!("\r     \x1b[1mRendering\x1b[0m [>{}]   0%", " ".repeat(32)));
}

#[test]
fn progress_line_on_a_narrow_terminal() {
    assert_eq!(compose(3, 4, "Rendering", 20), "\r     \x1b[1mRendering\x1b[0m [>]  75%");
    assert_eq!(compose(4, 4, "Rendering", 20), "\r     \x1b[1mRendering\x1b[0m [] 100%");
    assert_eq!(compose(1, 3, "Rendering", 48), "\r     \x1b[1mRendering\x1b[0m [>]  33%");
    assert_eq!(compose(2, 3, "Rendering", 49), "\r     \x1b[1mRendering\x1b[0m [> ]  66%");
}

#[test]
fn progress_label_counts_by_its_bytes() {
    // Two characters, four bytes: the bar has 80 - 38 - 4 columns.
    let line = compose(1, 1, "éé", 80);
    assert_eq!(line, format!("\r     \x1b[1méé\x1b[0m [{}] 100%", "=".repeat(38)));
}

#[test]
fn progress_is_composed_on_eighty_columns_without_a_terminal() {
    assert_eq!(columns_of(None), 80);
    assert_eq!(columns_of(Some(132)), 132);
    assert_eq!(columns_of(Some(0)), 0);
    assert_eq!(columns_of(Some(u16::MAX)), 65535);
}

#[test]
fn progress_line_of_this_process() {
    let line = show(1, 2, "Rendering");
    assert!(line.starts_with("\r     \x1b[1mRendering\x1b[0m ["));
    assert!(line.ends_with("]  50%"));
}

#[test]
fn book_1_lists_seven_pictures() {
    let shots = book_1(50, 10);
    assert_eq!(shots.len(), 7);
    let scenes: Vec<Scene> = shots.iter().map(|shot| shot.scene).collect();
    assert_eq!(
        scenes,
        vec![
            Scene::Lambertian,
            Scene::ShinyMetal,
            Scene::DullMetal,
            Scene::Glass,
            Scene::Glass,
            Scene::Glass,
            Scene::Glass
        ]
    );
    let views: Vec<Viewpoint> = shots.iter().map(|shot| shot.view).collect();
    assert_eq!(
        views,
        vec![
            Viewpoint::Front,
            Viewpoint::Front,
            Viewpoint::Front,
            Viewpoint::Front,
            Viewpoint::WideAngle,
            Viewpoint::ReducedFov,
            Viewpoint::Defocus
        ]
    );
    for (i, shot) in shots.iter().enumerate() {
        assert_eq!(shot.number, i as u64 + 1);
        assert_eq!(shot.max_depth, 50);
        assert_eq!(shot.samples_per_pixel, 10);
        assert_eq!(shot.name(), format!("example_{}", i + 1));
    }
    assert_eq!(book_directory(), "book");
}
