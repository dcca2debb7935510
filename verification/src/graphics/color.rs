//! Colors as normalized RGBA values in fixed-point representation.

use vstd::prelude::*;

use crate::fixed::FX_ONE;

verus! {

/// A color with red, green, blue and alpha components, each a 16.16
/// fixed-point scalar where `FX_ONE` stands for full intensity.
#[derive(Debug, Copy, Clone, PartialEq, Eq, Structural)]
pub struct Color {
    /// red component
    pub r: i64,
    /// green component
    pub g: i64,
    /// blue component
    pub b: i64,
    /// alpha component
    pub a: i64,
}

/// The exact 8-bit quantization of one color component: the component is
/// clamped to the unit interval, scaled by 255 and truncated.
pub open spec fn component_u8_spec(v: int) -> int {
    if v <= 0 {
        0
    } else if v >= 65536 {
        255
    } else {
        (v * 255) / 65536
    }
}

/// The fixed-point value of one 8-bit color component: scaled up and
/// rounded so that quantizing back returns the same byte.
pub open spec fn component_from_u8_spec(v: int) -> int {
    (v * 65536 + 254) / 255
}

/// Quantizes one fixed-point component to 8 bits.
fn component_to_u8(v: i64) -> (r: u8)
    ensures
        r as int == component_u8_spec(v as int),
{
    if v <= 0 {
        0
    } else if v >= 65536 {
        255
    } else {
        proof {
            vstd::arithmetic::div_mod::lemma_div_is_ordered(v * 255, 65535int * 255int, 65536);
            vstd::arithmetic::div_mod::lemma_div_pos_is_pos(v * 255, 65536);
        }
        ((v * 255) / 65536) as u8
    }
}

impl Color {
    /// A color from its four components.
    pub fn from_rgba(r: i64, g: i64, b: i64, a: i64) -> (c: Color)
        ensures
            c == (Color { r, g, b, a }),
    {
        Color { r, g, b, a }
    }

    /// An opaque color from its three components.
    pub fn from_rgb(r: i64, g: i64, b: i64) -> (c: Color)
        ensures
            c == (Color { r, g, b, a: FX_ONE }),
    {
        Color::from_rgba(r, g, b, FX_ONE)
    }

    /// A color from four 8-bit components.
    pub fn from_rgba_u8(r: u8, g: u8, b: u8, a: u8) -> (c: Color)
        ensures
            c.r as int == component_from_u8_spec(r as int),
            c.g as int == component_from_u8_spec(g as int),
            c.b as int == component_from_u8_spec(b as int),
            c.a as int == component_from_u8_spec(a as int),
    {
        Color::from_rgba(
            ((r as i64) * 65536 + 254) / 255,
            ((g as i64) * 65536 + 254) / 255,
            ((b as i64) * 65536 + 254) / 255,
            ((a as i64) * 65536 + 254) / 255,
        )
    }

    /// An opaque color from three 8-bit components.
    pub fn from_rgb_u8(r: u8, g: u8, b: u8) -> (c: Color)
        ensures
            c.r as int == component_from_u8_spec(r as int),
            c.g as int == component_from_u8_spec(g as int),
            c.b as int == component_from_u8_spec(b as int),
            c.a == FX_ONE,
    {
        Color::from_rgba_u8(r, g, b, 255)
    }

    /// The four components quantized to 8 bits, in RGBA order.
    pub fn to_rgba_u8(self) -> (bytes: [u8; 4])
        ensures
            bytes[0] as int == component_u8_spec(self.r as int),
            bytes[1] as int == component_u8_spec(self.g as int),
            bytes[2] as int == component_u8_spec(self.b as int),
            bytes[3] as int == component_u8_spec(self.a as int),
    {
        [
            component_to_u8(self.r),
            component_to_u8(self.g),
            component_to_u8(self.b),
            component_to_u8(self.a),
        ]
    }

    /// Opaque white.
    pub fn white() -> (c: Color)
        ensures
            c == (Color { r: FX_ONE, g: FX_ONE, b: FX_ONE, a: FX_ONE }),
    {
        Color::from_rgba(FX_ONE, FX_ONE, FX_ONE, FX_ONE)
    }

    /// Opaque black.
    pub fn black() -> (c: Color)
        ensures
            c == (Color { r: 0, g: 0, b: 0, a: FX_ONE }),
    {
        Color::from_rgba(0, 0, 0, FX_ONE)
    }

    /// Opaque red.
    pub fn red() -> (c: Color)
        ensures
            c == (Color { r: FX_ONE, g: 0, b: 0, a: FX_ONE }),
    {
        Color::from_rgba(FX_ONE, 0, 0, FX_ONE)
    }

    /// Opaque green.
    pub fn green() -> (c: Color)
        ensures
            c == (Color { r: 0, g: FX_ONE, b: 0, a: FX_ONE }),
    {
        Color::from_rgba(0, FX_ONE, 0, FX_ONE)
    }

    /// Opaque blue.
    pub fn blue() -> (c: Color)
        ensures
            c == (Color { r: 0, g: 0, b: FX_ONE, a: FX_ONE }),
    {
        Color::from_rgba(0, 0, FX_ONE, FX_ONE)
    }

    /// Opaque magenta.
    pub fn magenta() -> (c: Color)
        ensures
            c == (Color { r: FX_ONE, g: 0, b: FX_ONE, a: FX_ONE }),
    {
        Color::from_rgba(FX_ONE, 0, FX_ONE, FX_ONE)
    }

    /// The cornflower blue familiar from freshly created game windows.
    pub fn cornflower_blue() -> (c: Color)
        ensures
            c.r as int == component_from_u8_spec(100),
            c.g as int == component_from_u8_spec(149),
            c.b as int == component_from_u8_spec(237),
            c.a == FX_ONE,
    {
        Color::from_rgb_u8(100, 149, 237)
    }
}

} // verus!
