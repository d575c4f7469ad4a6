use mandelbrot::encode::{encode_png, render_and_encode};
use mandelbrot::render::render_counts;
use mandelbrot::{HEIGHT, MAX_ITER, PIXELS, WIDTH};

fn pattern_counts() -> Vec<u32> {
    let mut counts: Vec<u32> = Vec::with_capacity(PIXELS);
    for i in 0..PIXELS {
        counts.push((i % (MAX_ITER as usize + 1)) as u32);
    }
    counts
}

/// Decoding the encoder's output reports dimensions exactly 512x512, every
/// pixel grayscale, and each pixel holding the shade of its own count.
#[test]
fn png_round_trip_dimensions_and_pixels() {
    let counts = pattern_counts();
    let img = render_counts(&counts);
    let bytes = encode_png(&img);
    assert_eq!(&bytes[..8], &[0x89, 0x50, 0x4E, 0x47, 0x0D, 0x0A, 0x1A, 0x0A]);
    let decoded = image::load_from_memory(&bytes).expect("decoding failed");
    assert_eq!(decoded.width(), WIDTH as u32);
    assert_eq!(decoded.height(), HEIGHT as u32);
    let rgb = decoded.to_rgb8();
    for x in 0..WIDTH {
        for y in 0..HEIGHT {
            let pixel = rgb.get_pixel(x as u32, y as u32);
            assert_eq!(pixel[0], pixel[1]);
            assert_eq!(pixel[0], pixel[2]);
            assert_eq!(pixel[0], img.shade(x, y), "pixel ({}, {})", x, y);
        }
    }
}

/// Rendering and encoding the same counts twice yields byte-identical
/// output.
#[test]
fn encode_twice_is_byte_identical() {
    let counts = pattern_counts();
    let first = encode_png(&render_counts(&counts));
    let second = encode_png(&render_counts(&counts));
    assert_eq!(first, second);
}

/// The one-call pipeline produces the same bytes as rendering and encoding
/// separately.
#[test]
fn render_and_encode_matches_componentwise() {
    let counts = pattern_counts();
    let combined = render_and_encode(&counts);
    let split = encode_png(&render_counts(&counts));
    assert_eq!(combined, split);
}
