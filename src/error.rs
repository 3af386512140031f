use vstd::prelude::*;

verus! {

/// What can go wrong between the two request parameters and the encoded image.
#[derive(Debug, Clone, Copy, PartialEq, Eq, Structural)]
pub enum FbmError {
    /// The requested path length is zero.
    InvalidLength,
    /// The raster could not be built or encoded.
    RenderFailure,
}

} // verus!
