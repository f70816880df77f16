//! Error kinds surfaced by the rendering core.

use vstd::prelude::*;

verus! {

/// A construction-time failure. There is no local recovery: both kinds are
/// surfaced immediately to the caller, which must abandon the object being
/// built.
#[derive(Clone, Copy, PartialEq, Eq, Structural, Debug)]
pub enum RenderError {
    /// A GPU buffer, texture or sampler could not be allocated
    /// (device lost or out of memory).
    ResourceAllocationFailure,
    /// The input bytes are not a valid encoded raster image.
    ImageDecodeFailure,
}

impl RenderError {
    /// A short human-readable description of the error.
    pub fn describe(&self) -> (r: &'static str)
        ensures
            self is ResourceAllocationFailure ==> r@ == "GPU resource allocation failed"@,
            self is ImageDecodeFailure ==> r@ == "input bytes are not a valid encoded raster image"@,
    {
        match self {
            RenderError::ResourceAllocationFailure => "GPU resource allocation failed",
            RenderError::ImageDecodeFailure => "input bytes are not a valid encoded raster image",
        }
    }
}

} // verus!
