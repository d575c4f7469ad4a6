use mandelbrot::intensity::intensity_of_count;
use mandelbrot::MAX_ITER;

/// The integer normalization agrees with the floating-point formula
/// floor(n / 1000 * 255) on every admissible count.
#[test]
fn intensity_matches_float_normalization() {
    for n in 0..=MAX_ITER {
        let float_shade = ((n as f64) / 1000.0f64 * 255.0f64).floor() as u8;
        assert_eq!(intensity_of_count(n), float_shade, "count {}", n);
    }
}

/// A point that never escapes runs all 1000 iterations and maps to full
/// white: 1000 / 1000 * 255 = 255.
#[test]
fn full_iteration_count_is_white() {
    assert_eq!(intensity_of_count(MAX_ITER), 255);
}

/// A point that escapes on the first iteration maps to 1 / 1000 * 255 =
/// 0.255, floored to black.
#[test]
fn immediate_escape_is_black() {
    assert_eq!(intensity_of_count(1), 0);
}

#[test]
fn zero_count_is_black() {
    assert_eq!(intensity_of_count(0), 0);
}

#[test]
fn almost_full_count_rounds_down() {
    assert_eq!(intensity_of_count(999), 254);
    assert_eq!(intensity_of_count(4), 1);
}
