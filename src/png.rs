use vstd::prelude::*;
use image::ImageEncoder;
use crate::canvas::{rgb_len, Canvas};
use crate::error::FbmError;

verus! {

/// The eight bytes that open every PNG stream.
pub open spec fn png_signature() -> Seq<u8> {
    seq![137u8, 80u8, 78u8, 71u8, 13u8, 10u8, 26u8, 10u8]
}

/// The type of the chunk that must come first: `IHDR`.
pub open spec fn ihdr_tag() -> Seq<u8> {
    seq![73u8, 72u8, 68u8, 82u8]
}

/// The big-endian number held by the four bytes of `b` from `at` on.
pub open spec fn be_u32(b: Seq<u8>, at: int) -> int {
    b[at] * 16777216 + b[at + 1] * 65536 + b[at + 2] * 256 + b[at + 3]
}

/// The (width, height) that a PNG stream declares in its header, if `b` opens
/// as one: signature, chunk length, `IHDR`, then width and height.
pub open spec fn png_header_of(b: Seq<u8>) -> Option<(u32, u32)> {
    if b.len() >= 24 && b.subrange(0, 8) == png_signature() && b.subrange(12, 16) == ihdr_tag() {
        Some((be_u32(b, 16) as u32, be_u32(b, 20) as u32))
    } else {
        None
    }
}

fn read_be_u32(b: &[u8], at: usize) -> (r: u32)
    requires
        at + 4 <= b@.len(),
    ensures
        r as int == be_u32(b@, at as int),
{
    let b0 = b[at] as u32;
    let b1 = b[at + 1] as u32;
    let b2 = b[at + 2] as u32;
    let b3 = b[at + 3] as u32;
    assert(b0 * 16777216 + b1 * 65536 + b2 * 256 + b3 <= 0xffff_ffff) by (nonlinear_arith)
        requires
            b0 <= 255,
            b1 <= 255,
            b2 <= 255,
            b3 <= 255,
    ;
    b0 * 16777216 + b1 * 65536 + b2 * 256 + b3
}

/// Reads the dimensions that a PNG stream declares, or `None` where `bytes`
/// does not open with a PNG signature and an `IHDR` chunk.
pub fn png_dimensions(bytes: &[u8]) -> (r: Option<(u32, u32)>)
    ensures
        r == png_header_of(bytes@),
{
    if bytes.len() < 24 {
        return None;
    }
    let sig: [u8; 8] = [137, 80, 78, 71, 13, 10, 26, 10];
    let tag: [u8; 4] = [73, 72, 68, 82];
    let mut k: usize = 0;
    while k < 8
        invariant
            k <= 8,
            bytes@.len() >= 24,
            sig@ == png_signature(),
            forall|m: int| 0 <= m < k ==> bytes@[m] == png_signature()[m],
        decreases 8 - k,
    {
        if bytes[k] != sig[k] {
            assert(bytes@.subrange(0, 8)[k as int] != png_signature()[k as int]);
            return None;
        }
        k = k + 1;
    }
    assert(bytes@.subrange(0, 8) =~= png_signature());
    let mut k: usize = 0;
    while k < 4
        invariant
            k <= 4,
            bytes@.len() >= 24,
            tag@ == ihdr_tag(),
            forall|m: int| 0 <= m < k ==> bytes@[12 + m] == ihdr_tag()[m],
        decreases 4 - k,
    {
        if bytes[12 + k] != tag[k] {
            assert(bytes@.subrange(12, 16)[k as int] != ihdr_tag()[k as int]);
            return None;
        }
        k = k + 1;
    }
    assert(bytes@.subrange(12, 16) =~= ihdr_tag());
    let w = read_be_u32(bytes, 16);
    let h = read_be_u32(bytes, 20);
    Some((w, h))
}

/// Opaque error of the image crate's encoders.
#[verifier::external_type_specification]
#[verifier::external_body]
pub struct ExImageError(image::ImageError);

/// The PNG stream that the image crate's encoder, at its default compression
/// and filter, writes for an RGB raster.
pub uninterp spec fn png_of(width: u32, height: u32, pixels: Seq<u8>) -> Seq<u8>;

/// Relies on image::codecs::png::PngEncoder::write_image (RGB, eight bits per
/// channel), which panics unless the buffer holds three bytes per pixel. It
/// hands the raster to the png crate's encoder, which refuses only a zero width
/// or height when it writes into a `Vec`; otherwise it writes the signature,
/// then the IHDR chunk with width and height in big-endian order, then the
/// image data. The stream is a `Vec`, which std never lets grow past
/// `isize::MAX` bytes.
#[verifier::external_body]
fn png_encode(pixels: &Vec<u8>, width: u32, height: u32) -> (r: Result<Vec<u8>, image::ImageError>)
    requires
        pixels@.len() == rgb_len(width, height),
    ensures
        (width > 0 && height > 0) ==> r is Ok,
        r is Ok ==> width > 0 && height > 0,
        r is Ok ==> r->Ok_0@ == png_of(width, height, pixels@),
        r is Ok ==> png_header_of(r->Ok_0@) == Some((width, height)),
        r is Ok ==> r->Ok_0@.len() <= isize::MAX,
{
    let mut out: Vec<u8> = Vec::new();
    let encoder = image::codecs::png::PngEncoder::new(&mut out);
    match encoder.write_image(pixels, width, height, image::ColorType::Rgb8) {
        Ok(()) => Ok(out),
        Err(e) => Err(e),
    }
}

/// Encodes a canvas as PNG. This succeeds exactly for a canvas with pixels;
/// what comes back is the encoder's stream, and its header declares the
/// canvas's own size.
pub fn encode(canvas: &Canvas) -> (r: Result<Vec<u8>, FbmError>)
    ensures
        r is Ok <==> canvas.spec_width() > 0 && canvas.spec_height() > 0,
        r is Ok ==> r->Ok_0@ == png_of(canvas.spec_width(), canvas.spec_height(), canvas.spec_pixels()),
        r is Ok ==> png_header_of(r->Ok_0@) == Some((canvas.spec_width(), canvas.spec_height())),
        r is Ok ==> r->Ok_0@.len() <= isize::MAX,
        r is Err ==> r->Err_0 == FbmError::RenderFailure,
{
    match png_encode(canvas.pixels(), canvas.width(), canvas.height()) {
        Ok(bytes) => Ok(bytes),
        Err(_) => Err(FbmError::RenderFailure),
    }
}

} // verus!
