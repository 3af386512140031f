use vstd::prelude::*;
use crate::error::FbmError;

verus! {

/// Width in pixels of every chart this library draws.
pub const CANVAS_WIDTH: u32 = 1024;

/// Height in pixels of every chart this library draws.
pub const CANVAS_HEIGHT: u32 = 768;

/// Number of bytes that an RGB raster of the given size holds.
pub open spec fn rgb_len(width: u32, height: u32) -> int {
    3 * (width as int) * (height as int)
}

fn rgb_size(width: u32, height: u32) -> (r: u128)
    ensures
        r as int == rgb_len(width, height),
{
    let w = width as u128;
    let h = height as u128;
    assert(3 * w * h <= 3 * 0xffff_ffffu128 * 0xffff_ffffu128) by (nonlinear_arith)
        requires
            w <= 0xffff_ffff,
            h <= 0xffff_ffff,
    ;
    3 * w * h
}

/// An RGB raster, three bytes per pixel, row by row.
pub struct Canvas {
    width: u32,
    height: u32,
    pixels: Vec<u8>,
}

impl Canvas {
    #[verifier::type_invariant]
    spec fn well_formed(&self) -> bool {
        self.pixels@.len() == rgb_len(self.width, self.height)
    }

    /// Width in pixels.
    pub closed spec fn spec_width(&self) -> u32 {
        self.width
    }

    /// Height in pixels.
    pub closed spec fn spec_height(&self) -> u32 {
        self.height
    }

    /// The RGB bytes, row by row.
    pub closed spec fn spec_pixels(&self) -> Seq<u8> {
        self.pixels@
    }

    /// Takes a raster of `width` x `height` pixels; fails where `pixels` does
    /// not hold three bytes for each of them.
    pub fn from_pixels(width: u32, height: u32, pixels: Vec<u8>) -> (r: Result<Canvas, FbmError>)
        ensures
            r is Ok <==> pixels@.len() == rgb_len(width, height),
            r is Err ==> r->Err_0 == FbmError::RenderFailure,
            r is Ok ==> r->Ok_0.spec_width() == width && r->Ok_0.spec_height() == height
                && r->Ok_0.spec_pixels() == pixels@,
    {
        let need: u128 = rgb_size(width, height);
        if need != pixels.len() as u128 {
            return Err(FbmError::RenderFailure);
        }
        Ok(Canvas { width, height, pixels })
    }

    pub fn width(&self) -> (r: u32)
        ensures
            r == self.spec_width(),
    {
        self.width
    }

    pub fn height(&self) -> (r: u32)
        ensures
            r == self.spec_height(),
    {
        self.height
    }

    pub fn pixels(&self) -> (r: &Vec<u8>)
        ensures
            r@ == self.spec_pixels(),
            r@.len() == rgb_len(self.spec_width(), self.spec_height()),
    {
        proof {
            use_type_invariant(self);
        }
        &self.pixels
    }
}

/// A black raster of `width` x `height` pixels, ready to be drawn on; fails
/// where its size does not fit in memory.
pub fn blank_pixels(width: u32, height: u32) -> (r: Result<Vec<u8>, FbmError>)
    ensures
        r is Ok <==> rgb_len(width, height) <= usize::MAX,
        r is Err ==> r->Err_0 == FbmError::RenderFailure,
        r is Ok ==> r->Ok_0@.len() == rgb_len(width, height)
            && forall|k: int| 0 <= k < r->Ok_0@.len() ==> r->Ok_0@[k] == 0u8,
{
    let need: u128 = rgb_size(width, height);
    if need > usize::MAX as u128 {
        return Err(FbmError::RenderFailure);
    }
    let need = need as usize;
    let mut pixels: Vec<u8> = Vec::new();
    while pixels.len() < need
        invariant
            pixels@.len() <= need,
            forall|k: int| 0 <= k < pixels@.len() ==> pixels@[k] == 0u8,
        decreases need - pixels@.len(),
    {
        pixels.push(0u8);
    }
    Ok(pixels)
}

} // verus!
