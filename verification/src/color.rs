//! Colors as the engine receives them: four scalar channels and a color
//! space tag.

use vstd::prelude::*;

use crate::geometry::Scalar;

verus! {

/// The color space a color's channel values are expressed in.
#[derive(Clone, Copy, Debug, PartialEq, Eq, Structural)]
pub enum ColorSpace {
    SRGB,
    ExtendedSRGB,
    DisplayP3,
}

/// The scalar pattern of `1.0`, the opaque alpha channel.
pub const SCALAR_ONE_BITS: u32 = 0x3f800000;

/// A color: red, green, blue and alpha channels in a color space.
#[derive(Clone, Copy, Debug, PartialEq, Eq, Structural)]
pub struct Color {
    pub red: Scalar,
    pub green: Scalar,
    pub blue: Scalar,
    pub alpha: Scalar,
    pub color_space: ColorSpace,
}

impl Color {
    /// An opaque sRGB color from its three channels.
    pub fn new_srgb(red: Scalar, green: Scalar, blue: Scalar) -> (r: Self)
        ensures
            r == (Color {
                red,
                green,
                blue,
                alpha: Scalar { bits: SCALAR_ONE_BITS },
                color_space: ColorSpace::SRGB,
            }),
    {
        Self::new_srgba(red, green, blue, Scalar { bits: SCALAR_ONE_BITS })
    }

    /// An sRGB color from its four channels.
    pub fn new_srgba(red: Scalar, green: Scalar, blue: Scalar, alpha: Scalar) -> (r: Self)
        ensures
            r == (Color { red, green, blue, alpha, color_space: ColorSpace::SRGB }),
    {
        Color { red, green, blue, alpha, color_space: ColorSpace::SRGB }
    }

    /// This color with its alpha channel replaced.
    pub fn with_alpha(self, alpha: Scalar) -> (r: Self)
        ensures
            r == (Color { alpha, ..self }),
    {
        Color { alpha, ..self }
    }
}

} // verus!
