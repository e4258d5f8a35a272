//! The pixel format and context profile that are asked of the platform. They
//! are fixed: no caller chooses them.

use vstd::prelude::*;

verus! {

/// The OpenGL profile of a context.
#[derive(Clone, Copy, Debug, PartialEq, Eq, Structural)]
pub enum GlProfile {
    Core,
    Compatibility,
}

/// What is asked of the platform when the window and its context are created.
#[derive(Clone, Copy, Debug, PartialEq, Eq, Structural)]
pub struct PixelFormatRequest {
    pub depth_bits: u8,
    pub stencil_bits: u8,
    /// The bits of the color channels together, alpha apart.
    pub color_bits: u8,
    pub alpha_bits: u8,
    pub double_buffer: bool,
    pub profile: GlProfile,
}

impl PixelFormatRequest {
    /// The one request that this host makes: no depth buffer, an 8-bit
    /// stencil buffer, 24 bits of color beside 8 of alpha, double buffering,
    /// and a core profile context.
    pub open spec fn spec_fixed() -> PixelFormatRequest {
        PixelFormatRequest {
            depth_bits: 0,
            stencil_bits: 8,
            color_bits: 24,
            alpha_bits: 8,
            double_buffer: true,
            profile: GlProfile::Core,
        }
    }

    /// The request that this host makes of the platform.
    pub fn fixed() -> (request: PixelFormatRequest)
        ensures
            request == Self::spec_fixed(),
    {
        PixelFormatRequest {
            depth_bits: 0,
            stencil_bits: 8,
            color_bits: 24,
            alpha_bits: 8,
            double_buffer: true,
            profile: GlProfile::Core,
        }
    }
}

} // verus!
