//! QR code generation options.

use vstd::prelude::*;

use crate::raster::Color;

verus! {

/// QR error-correction level.
#[derive(Debug, Clone, Copy, PartialEq, Eq, Structural)]
pub enum ErrorCorrection {
    /// About 7% recoverable.
    Low,
    /// About 15% recoverable.
    Medium,
    /// About 25% recoverable.
    Quartile,
    /// About 30% recoverable.
    High,
}

/// How a QR code is rendered.
#[derive(Debug, Clone, Copy, PartialEq, Eq, Structural)]
pub struct QrOptions {
    /// Error-correction level.
    pub error_correction: ErrorCorrection,
    /// Smallest side of the output image, in pixels.
    pub min_size: u32,
    /// Colour of dark modules.
    pub foreground: Color,
    /// Colour of light modules.
    pub background: Color,
}

} // verus!
