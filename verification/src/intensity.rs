//! Normalization of escape iteration counts to 8-bit grayscale intensities.

use vstd::prelude::*;
use crate::MAX_ITER;

verus! {

/// The grayscale shade assigned to an escape iteration count `n` in
/// `[0, MAX_ITER]`: `n` scaled from `[0, 1000]` into `[0, 255]` and rounded
/// down.
pub open spec fn shade_of_count(n: int) -> int {
    n * 255 / 1000
}

/// Normalize an escape iteration count to an 8-bit grayscale intensity.
///
/// A count of `MAX_ITER` (the orbit never escaped) maps to full white, 255;
/// a count of 0 maps to black.
pub fn intensity_of_count(n: u32) -> (r: u8)
    requires
        n <= MAX_ITER,
    ensures
        r as int == shade_of_count(n as int),
{
    let scaled: u32 = n * 255 / 1000;
    scaled as u8
}

} // verus!
