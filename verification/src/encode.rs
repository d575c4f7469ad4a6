//! PNG encoding of the raster through the `image` crate, and the
//! determinism of the whole verified pipeline.

use vstd::prelude::*;
use crate::{MAX_ITER, PIXELS, RASTER_BYTES};
use crate::raster::Raster;
use crate::render::{lemma_renders_determines_bytes, raster_bytes_of, render_counts, renders};

verus! {

/// The PNG encoding of a 512x512 RGB raster with the given raw bytes.
pub uninterp spec fn png_bytes_of(data: Seq<u8>) -> Seq<u8>;

/// Relies on image::ImageBuffer::from_raw, which accepts any buffer of
/// exactly width*height*3 bytes, and image::ImageBuffer::write_to with the
/// PNG format, whose output depends on the dimensions and the raster bytes
/// alone. Encoding a nonzero-size RGB8 image of exactly the expected byte
/// length into an in-memory cursor cannot fail: the PNG encoder errors only
/// on animation settings, zero dimensions, an invalid color and bit-depth
/// combination, a wrong buffer size, or a writer I/O error, and a cursor
/// over a byte vector never reports one.
#[verifier::external_body]
fn png_encode_raster(data: &Vec<u8>) -> (r: Vec<u8>)
    requires
        data@.len() == RASTER_BYTES,
    ensures
        r@ == png_bytes_of(data@),
{
    let img: image::RgbImage = image::ImageBuffer::from_raw(512, 512, data.clone())
        .expect("the raster buffer has exactly width*height*3 bytes");
    let mut out: std::io::Cursor<Vec<u8>> = std::io::Cursor::new(Vec::new());
    img.write_to(&mut out, image::ImageFormat::Png)
        .expect("in-memory PNG encoding of a well-sized RGB image cannot fail");
    out.into_inner()
}

/// PNG-encode a well-formed raster.
pub fn encode_png(img: &Raster) -> (r: Vec<u8>)
    requires
        img.wf(),
    ensures
        r@ == png_bytes_of(img@),
{
    png_encode_raster(img.bytes())
}

/// Determinism of the output: any two well-formed rasters that render the
/// same grid of escape counts hold identical bytes, so their PNG encodings
/// are byte-identical.
pub proof fn lemma_output_deterministic(r1: Raster, r2: Raster, counts: Seq<u32>)
    requires
        counts.len() == PIXELS,
        r1.wf(),
        r2.wf(),
        renders(r1, counts),
        renders(r2, counts),
    ensures
        r1@ == r2@,
        png_bytes_of(r1@) == png_bytes_of(r2@),
{
    lemma_renders_determines_bytes(r1, counts);
    lemma_renders_determines_bytes(r2, counts);
}

/// Render a full grid of escape iteration counts and PNG-encode the result:
/// the produced file bytes are a function of the counts alone.
pub fn render_and_encode(counts: &Vec<u32>) -> (r: Vec<u8>)
    requires
        counts@.len() == PIXELS,
        forall|p: int| 0 <= p < PIXELS ==> #[trigger] counts@[p] <= MAX_ITER,
    ensures
        r@ == png_bytes_of(raster_bytes_of(counts@)),
{
    let img = render_counts(counts);
    encode_png(&img)
}

} // verus!
