//! The ways in which producing a raster can fail.

use vstd::prelude::*;

verus! {

/// Why no raster is available. None of these is fatal: the widget treats each as
/// "no image" and draws nothing.
#[derive(Debug, Clone, Copy, PartialEq, Eq, Structural)]
pub enum ImageError {
    /// The source could not be read or decoded.
    DecodeFailure,
    /// The resampler could not produce a raster of the requested size.
    ResizeFailure,
    /// An aspect-preserving fit was asked of a source with a zero dimension.
    InvalidDimension,
}

} // verus!
