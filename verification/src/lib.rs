//! A verified core for a fixed-size grayscale Mandelbrot renderer.
//!
//! The escape-time recurrence itself runs over `f64` values and therefore
//! lives outside this library; the library receives the per-pixel escape
//! iteration counts, normalizes them to 8-bit intensities, lays them out as
//! a 512x512 RGB raster with equal channels, and PNG-encodes the raster
//! through the `image` crate.

use vstd::prelude::*;

pub mod encode;
pub mod intensity;
pub mod raster;
pub mod render;

verus! {

/// Width of the rendered image in pixels.
pub const WIDTH: usize = 512;

/// Height of the rendered image in pixels.
pub const HEIGHT: usize = 512;

/// Cap on the escape iteration count of a single pixel.
pub const MAX_ITER: u32 = 1000;

/// Number of pixels in the image.
pub const PIXELS: usize = WIDTH * HEIGHT;

/// Bytes per pixel: one each for the red, green and blue channels.
pub const CHANNELS: usize = 3;

/// Total length in bytes of the raw RGB raster.
pub const RASTER_BYTES: usize = PIXELS * CHANNELS;

} // verus!
