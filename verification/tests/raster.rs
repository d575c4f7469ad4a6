use mandelbrot::raster::Raster;
use mandelbrot::{CHANNELS, HEIGHT, RASTER_BYTES, WIDTH};

#[test]
fn new_raster_is_black_and_well_sized() {
    let r = Raster::new();
    let bytes = r.bytes();
    assert_eq!(bytes.len(), RASTER_BYTES);
    assert!(bytes.iter().all(|b| *b == 0));
}

#[test]
fn set_gray_writes_all_three_channels() {
    let mut r = Raster::new();
    r.set_gray(3, 5, 77);
    let bytes = r.bytes();
    let base = CHANNELS * (5 * WIDTH + 3);
    assert_eq!(bytes[base], 77);
    assert_eq!(bytes[base + 1], 77);
    assert_eq!(bytes[base + 2], 77);
}

#[test]
fn set_gray_leaves_other_pixels_alone() {
    let mut r = Raster::new();
    r.set_gray(10, 10, 200);
    assert_eq!(r.shade(9, 10), 0);
    assert_eq!(r.shade(11, 10), 0);
    assert_eq!(r.shade(10, 9), 0);
    assert_eq!(r.shade(10, 11), 0);
    assert_eq!(r.shade(10, 10), 200);
}

/// Both grid corners are addressable with no off-by-one: pixel (0, 0) sits
/// at the first byte triple and pixel (511, 511) at the last.
#[test]
fn corner_pixels_are_addressable() {
    let mut r = Raster::new();
    r.set_gray(0, 0, 11);
    r.set_gray(WIDTH - 1, HEIGHT - 1, 22);
    assert_eq!(r.shade(0, 0), 11);
    assert_eq!(r.shade(WIDTH - 1, HEIGHT - 1), 22);
    let bytes = r.bytes();
    assert_eq!(bytes[0], 11);
    assert_eq!(bytes[RASTER_BYTES - 1], 22);
    assert_eq!(bytes[RASTER_BYTES - CHANNELS], 22);
}
