//! A fixed-size 512x512 RGB raster whose pixels are always grayscale.

use vstd::prelude::*;
use crate::{CHANNELS, HEIGHT, PIXELS, RASTER_BYTES, WIDTH};

verus! {

/// Row-major position of pixel `(x, y)` in the pixel grid, with `x` the
/// column and `y` the row.
pub open spec fn pixel_index(x: int, y: int) -> int {
    y * (WIDTH as int) + x
}

/// Position of the red channel of pixel `(x, y)` in the raw byte buffer;
/// green and blue follow at the next two positions.
pub open spec fn byte_index(x: int, y: int) -> int {
    (CHANNELS as int) * pixel_index(x, y)
}

/// The three channel bytes of the pixel at grid position `p` are equal.
pub open spec fn gray_at(data: Seq<u8>, p: int) -> bool {
    &&& data[3 * p + 1] == data[3 * p]
    &&& data[3 * p + 2] == data[3 * p]
}

/// Distinct pixel coordinates occupy distinct grid positions.
pub proof fn lemma_pixel_index_injective(x1: int, y1: int, x2: int, y2: int)
    requires
        0 <= x1 < WIDTH,
        0 <= y1 < HEIGHT,
        0 <= x2 < WIDTH,
        0 <= y2 < HEIGHT,
        pixel_index(x1, y1) == pixel_index(x2, y2),
    ensures
        x1 == x2,
        y1 == y2,
{
    assert((WIDTH as int) * (y1 - y2) == x2 - x1) by (nonlinear_arith)
        requires
            y1 * (WIDTH as int) + x1 == y2 * (WIDTH as int) + x2,
    ;
}

/// Every pixel coordinate has its grid position inside the grid.
pub proof fn lemma_pixel_index_in_range(x: int, y: int)
    requires
        0 <= x < WIDTH,
        0 <= y < HEIGHT,
    ensures
        0 <= pixel_index(x, y) < PIXELS,
{
}

/// Every grid position belongs to some pixel coordinate: together with
/// injectivity, the 512x512 coordinates cover the grid exactly once, with
/// no gap and no duplicate.
pub proof fn lemma_pixel_index_surjective(p: int)
    requires
        0 <= p < PIXELS,
    ensures
        exists|x: int, y: int|
            0 <= x < WIDTH && 0 <= y < HEIGHT && #[trigger] pixel_index(x, y) == p,
{
    let x: int = p % (WIDTH as int);
    let y: int = p / (WIDTH as int);
    vstd::arithmetic::div_mod::lemma_fundamental_div_mod(p, WIDTH as int);
    vstd::arithmetic::div_mod::lemma_mod_bound(p, WIDTH as int);
    assert(0 <= x < WIDTH && 0 <= y < HEIGHT && pixel_index(x, y) == p);
}

/// A 512x512 image held as raw RGB bytes in the row-major layout that the
/// PNG encoder consumes, with the invariant that every pixel is gray: its
/// red, green and blue bytes are equal.
pub struct Raster {
    data: Vec<u8>,
}

impl View for Raster {
    type V = Seq<u8>;

    closed spec fn view(&self) -> Seq<u8> {
        self.data@
    }
}

impl Raster {
    /// The buffer has exactly one RGB triple per pixel and every pixel is
    /// gray.
    pub open spec fn wf(&self) -> bool {
        &&& self@.len() == RASTER_BYTES
        &&& forall|p: int| 0 <= p < PIXELS ==> #[trigger] gray_at(self@, p)
    }

    /// The shade of pixel `(x, y)`: its red byte, which by well-formedness
    /// equals its green and blue bytes.
    pub open spec fn shade_at(&self, x: int, y: int) -> u8 {
        self@[byte_index(x, y)]
    }

    /// Create an all-black raster.
    pub fn new() -> (r: Raster)
        ensures
            r.wf(),
            forall|x: int, y: int|
                0 <= x < WIDTH && 0 <= y < HEIGHT ==> #[trigger] r.shade_at(x, y) == 0,
    {
        let mut data: Vec<u8> = Vec::new();
        while data.len() < RASTER_BYTES
            invariant
                data@.len() <= RASTER_BYTES,
                forall|i: int| 0 <= i < data@.len() ==> data@[i] == 0,
            decreases RASTER_BYTES - data@.len(),
        {
            data.push(0u8);
        }
        let r = Raster { data };
        assert forall|p: int| 0 <= p < PIXELS implies #[trigger] gray_at(r@, p) by {
            assert(r@[3 * p] == 0 && r@[3 * p + 1] == 0 && r@[3 * p + 2] == 0);
        }
        r
    }

    /// Set pixel `(x, y)` to the gray shade `v` on all three channels,
    /// leaving every other pixel unchanged.
    pub fn set_gray(&mut self, x: usize, y: usize, v: u8)
        requires
            old(self).wf(),
            x < WIDTH,
            y < HEIGHT,
        ensures
            final(self).wf(),
            final(self).shade_at(x as int, y as int) == v,
            forall|x2: int, y2: int|
                0 <= x2 < WIDTH && 0 <= y2 < HEIGHT && (x2 != x || y2 != y)
                    ==> #[trigger] final(self).shade_at(x2, y2) == old(self).shade_at(x2, y2),
    {
        let i: usize = CHANNELS * (y * WIDTH + x);
        proof {
            lemma_pixel_index_in_range(x as int, y as int);
        }
        self.data[i] = v;
        self.data[i + 1] = v;
        self.data[i + 2] = v;
        let ghost pix: int = pixel_index(x as int, y as int);
        assert forall|p: int| 0 <= p < PIXELS implies #[trigger] gray_at(self@, p) by {
            if p == pix {
                assert(self@[3 * p] == v && self@[3 * p + 1] == v && self@[3 * p + 2] == v);
            } else {
                assert(3 * p + 2 < 3 * pix || 3 * pix + 2 < 3 * p);
                assert(gray_at(old(self)@, p));
            }
        }
        assert forall|x2: int, y2: int|
            0 <= x2 < WIDTH && 0 <= y2 < HEIGHT && (x2 != x || y2 != y)
                implies #[trigger] self.shade_at(x2, y2) == old(self).shade_at(x2, y2) by {
            if pixel_index(x2, y2) == pix {
                lemma_pixel_index_injective(x2, y2, x as int, y as int);
            }
            assert(byte_index(x2, y2) != i && byte_index(x2, y2) != i + 1
                && byte_index(x2, y2) != i + 2);
        }
    }

    /// Read the shade of pixel `(x, y)`.
    pub fn shade(&self, x: usize, y: usize) -> (r: u8)
        requires
            self.wf(),
            x < WIDTH,
            y < HEIGHT,
        ensures
            r == self.shade_at(x as int, y as int),
    {
        proof {
            lemma_pixel_index_in_range(x as int, y as int);
        }
        let i: usize = CHANNELS * (y * WIDTH + x);
        self.data[i]
    }

    /// The raw RGB bytes of the raster.
    pub fn bytes(&self) -> (r: &Vec<u8>)
        ensures
            r@ == self@,
    {
        &self.data
    }
}

} // verus!
