//! The render driver: turn a full grid of escape iteration counts into a
//! grayscale raster, visiting every pixel coordinate exactly once.

use vstd::prelude::*;
use vstd::arithmetic::div_mod::{lemma_fundamental_div_mod, lemma_mod_bound};
use crate::{HEIGHT, MAX_ITER, PIXELS, RASTER_BYTES, WIDTH};
use crate::intensity::{intensity_of_count, shade_of_count};
use crate::raster::{gray_at, pixel_index, Raster};

verus! {

/// Position of the count for pixel `(x, y)` in the incoming count grid,
/// which is produced column by column: all of column `x` before column
/// `x + 1`.
pub open spec fn sample_index(x: int, y: int) -> int {
    x * (HEIGHT as int) + y
}

/// Distinct pixel coordinates read distinct positions of the count grid.
pub proof fn lemma_sample_index_injective(x1: int, y1: int, x2: int, y2: int)
    requires
        0 <= x1 < WIDTH,
        0 <= y1 < HEIGHT,
        0 <= x2 < WIDTH,
        0 <= y2 < HEIGHT,
        sample_index(x1, y1) == sample_index(x2, y2),
    ensures
        x1 == x2,
        y1 == y2,
{
    assert((HEIGHT as int) * (x1 - x2) == y2 - y1) by (nonlinear_arith)
        requires
            x1 * (HEIGHT as int) + y1 == x2 * (HEIGHT as int) + y2,
    ;
}

/// The raster `r` shows exactly the count grid `counts`: the shade of each
/// pixel is its count's normalized intensity.
pub open spec fn renders(r: Raster, counts: Seq<u32>) -> bool {
    forall|x: int, y: int|
        0 <= x < WIDTH && 0 <= y < HEIGHT
            ==> #[trigger] r.shade_at(x, y) == shade_of_count(counts[sample_index(x, y)] as int)
}

/// The byte at buffer position `i` of a raster that renders `counts`: the
/// shade of the pixel that owns the byte, whatever the channel.
pub open spec fn raster_byte_of(counts: Seq<u32>, i: int) -> u8 {
    shade_of_count(
        counts[sample_index((i / 3) % (WIDTH as int), (i / 3) / (WIDTH as int))] as int,
    ) as u8
}

/// The full byte buffer of a raster that renders `counts`.
pub open spec fn raster_bytes_of(counts: Seq<u32>) -> Seq<u8> {
    Seq::new(RASTER_BYTES as nat, |i: int| raster_byte_of(counts, i))
}

/// A well-formed raster that renders a count grid holds exactly the bytes
/// `raster_bytes_of` gives: the raster is determined by the counts.
pub proof fn lemma_renders_determines_bytes(r: Raster, counts: Seq<u32>)
    requires
        counts.len() == PIXELS,
        r.wf(),
        renders(r, counts),
    ensures
        r@ == raster_bytes_of(counts),
{
    assert forall|i: int| 0 <= i < RASTER_BYTES implies r@[i] == raster_bytes_of(counts)[i] by {
        let p: int = i / 3;
        lemma_fundamental_div_mod(i, 3);
        lemma_mod_bound(i, 3);
        let x: int = p % (WIDTH as int);
        let y: int = p / (WIDTH as int);
        lemma_fundamental_div_mod(p, WIDTH as int);
        lemma_mod_bound(p, WIDTH as int);
        assert(0 <= p < PIXELS);
        assert(0 <= y < HEIGHT);
        assert(pixel_index(x, y) == p);
        assert(gray_at(r@, p));
        assert(r@[i] == r@[3 * p]);
        assert(r.shade_at(x, y) == shade_of_count(counts[sample_index(x, y)] as int));
        assert(raster_bytes_of(counts)[i] == raster_byte_of(counts, i));
    }
    assert(r@ =~= raster_bytes_of(counts));
}

/// Render a full grid of escape iteration counts, one per pixel, to a
/// grayscale raster.
pub fn render_counts(counts: &Vec<u32>) -> (r: Raster)
    requires
        counts@.len() == PIXELS,
        forall|p: int| 0 <= p < PIXELS ==> #[trigger] counts@[p] <= MAX_ITER,
    ensures
        r.wf(),
        renders(r, counts@),
        r@ == raster_bytes_of(counts@),
{
    let mut img = Raster::new();
    for x in 0..WIDTH
        invariant
            counts@.len() == PIXELS,
            forall|p: int| 0 <= p < PIXELS ==> #[trigger] counts@[p] <= MAX_ITER,
            img.wf(),
            forall|x2: int, y2: int|
                0 <= x2 < x && 0 <= y2 < HEIGHT
                    ==> #[trigger] img.shade_at(x2, y2)
                        == shade_of_count(counts@[sample_index(x2, y2)] as int),
    {
        for y in 0..HEIGHT
            invariant
                counts@.len() == PIXELS,
                forall|p: int| 0 <= p < PIXELS ==> #[trigger] counts@[p] <= MAX_ITER,
                x < WIDTH,
                img.wf(),
                forall|x2: int, y2: int|
                    0 <= x2 < x && 0 <= y2 < HEIGHT
                        ==> #[trigger] img.shade_at(x2, y2)
                            == shade_of_count(counts@[sample_index(x2, y2)] as int),
                forall|y2: int|
                    0 <= y2 < y
                        ==> #[trigger] img.shade_at(x as int, y2)
                            == shade_of_count(counts@[sample_index(x as int, y2)] as int),
        {
            let i: usize = x * HEIGHT + y;
            let v: u8 = intensity_of_count(counts[i]);
            img.set_gray(x, y, v);
        }
    }
    proof {
        lemma_renders_determines_bytes(img, counts@);
    }
    img
}

} // verus!
