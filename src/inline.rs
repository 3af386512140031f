use vstd::prelude::*;
use vstd::string::StringExecFns;
use base64::Engine;
use crate::canvas::Canvas;
use crate::error::FbmError;
use crate::png::{encode, png_header_of, png_of};

verus! {

/// The standard base64 text of `b`, without padding.
pub uninterp spec fn base64_of(b: Seq<u8>) -> Seq<char>;

/// Length of unpadded base64 text for `n` bytes: four characters for each
/// whole group of three bytes, and two or three for a last partial group.
pub open spec fn base64_len(n: nat) -> nat {
    let tail: nat = if n % 3 == 0 {
        0
    } else if n % 3 == 1 {
        2
    } else {
        3
    };
    4 * (n / 3) + tail
}

/// Relies on base64's `STANDARD_NO_PAD` engine and `Engine::encode`: the text
/// depends on the bytes alone, and its length is what `encoded_len` gives
/// without padding (the text is ASCII). That length computation overflows, and
/// panics, only for inputs longer than any allocation can be.
#[verifier::external_body]
fn to_base64(b: &Vec<u8>) -> (r: String)
    requires
        b@.len() <= isize::MAX,
    ensures
        r@ == base64_of(b@),
        r@.len() == base64_len(b@.len()),
{
    base64::engine::general_purpose::STANDARD_NO_PAD.encode(b)
}

/// The HTML image element that shows a PNG image given as base64 text, inline
/// in a data URL.
pub open spec fn inline_img(encoded: Seq<char>) -> Seq<char> {
    "<img src=\"data:image/png;base64,"@ + encoded + "\" alt=\"fbm\">"@
}

/// Wraps base64 text of a PNG image in an image element with a data URL.
pub fn img_fragment(encoded: &str) -> (r: String)
    ensures
        r@ == inline_img(encoded@),
{
    let mut html = String::from_str("<img src=\"data:image/png;base64,");
    html.append(encoded);
    html.append("\" alt=\"fbm\">");
    html
}

/// The image element that shows the PNG stream `png` inline.
pub fn inline_png(png: &Vec<u8>) -> (r: String)
    requires
        png@.len() <= isize::MAX,
    ensures
        r@ == inline_img(base64_of(png@)),
        base64_of(png@).len() == base64_len(png@.len()),
{
    let encoded = to_base64(png);
    img_fragment(encoded.as_str())
}

/// Encodes a canvas as PNG and wraps it in an image element for inline
/// delivery. This succeeds exactly for a canvas with pixels.
pub fn inline_chart(canvas: &Canvas) -> (r: Result<String, FbmError>)
    ensures
        r is Ok <==> canvas.spec_width() > 0 && canvas.spec_height() > 0,
        r is Ok ==> r->Ok_0@ == inline_img(
            base64_of(png_of(canvas.spec_width(), canvas.spec_height(), canvas.spec_pixels())),
        ),
        r is Ok ==> png_header_of(png_of(canvas.spec_width(), canvas.spec_height(), canvas.spec_pixels()))
            == Some((canvas.spec_width(), canvas.spec_height())),
        r is Err ==> r->Err_0 == FbmError::RenderFailure,
{
    let png = encode(canvas)?;
    Ok(inline_png(&png))
}

} // verus!
