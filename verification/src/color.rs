//! Colours, by colour space and components.

use vstd::prelude::*;
use crate::math::{Scalar, ONE_BITS};

verus! {

/// A colour with its opacity.
#[derive(Clone, Copy, Debug, PartialEq, Eq, Hash, Structural)]
pub enum Color {
    /// sRGB, not linear.
    Rgba { red: Scalar, green: Scalar, blue: Scalar, alpha: Scalar },
    /// Linear sRGB.
    RgbaLinear { red: Scalar, green: Scalar, blue: Scalar, alpha: Scalar },
    /// Hue, saturation and lightness.
    Hsla { hue: Scalar, saturation: Scalar, lightness: Scalar, alpha: Scalar },
}

impl Color {
    /// Whether the colour is opaque white: the sRGB colour whose four
    /// components are all one.
    ///
    /// A white written in another colour space does not count, and no other
    /// bit pattern compares equal to the number one.
    pub open spec fn is_white(self) -> bool {
        self matches Color::Rgba { red, green, blue, alpha }
            && red.bits == ONE_BITS
            && green.bits == ONE_BITS
            && blue.bits == ONE_BITS
            && alpha.bits == ONE_BITS
    }

    /// Opaque white.
    pub fn white() -> (color: Color)
        ensures
            color.is_white(),
            color == (Color::Rgba {
                red: Scalar { bits: ONE_BITS },
                green: Scalar { bits: ONE_BITS },
                blue: Scalar { bits: ONE_BITS },
                alpha: Scalar { bits: ONE_BITS },
            }),
    {
        Color::Rgba {
            red: Scalar::one(),
            green: Scalar::one(),
            blue: Scalar::one(),
            alpha: Scalar::one(),
        }
    }

    /// Whether a sprite of this colour needs a colour in each vertex, which
    /// is the case unless the colour is opaque white.
    pub fn is_colored(&self) -> (colored: bool)
        ensures
            colored == !self.is_white(),
    {
        match self {
            Color::Rgba { red, green, blue, alpha } => {
                !(red.bits == ONE_BITS && green.bits == ONE_BITS && blue.bits == ONE_BITS
                    && alpha.bits == ONE_BITS)
            },
            _ => true,
        }
    }
}

} // verus!
