use vstd::prelude::*;

verus! {

/// Bit pattern of the single-precision value 1.0.
pub const ONE_BITS: u32 = 0x3F80_0000;

/// Bit pattern of the single-precision value 0.0.
pub const ZERO_BITS: u32 = 0x0000_0000;

/// Bit pattern of the single-precision value -1.0.
pub const NEG_ONE_BITS: u32 = 0xBF80_0000;

/// One RGBA pixel. Each component is the raw 32-bit encoding of a
/// single-precision color value; the pipeline moves these words around
/// verbatim and never does arithmetic on them, so a frame that reaches the
/// consumer is bit-identical to the one the producer built. A display shell
/// reinterprets the encodings at the upload boundary.
#[derive(Clone, Copy, Debug, PartialEq, Eq, Structural)]
pub struct Color {
    pub r: u32,
    pub g: u32,
    pub b: u32,
    pub a: u32,
}

/// The opaque white that the test pattern paints off the diagonal.
pub open spec fn white_color() -> Color {
    Color { r: ONE_BITS, g: ONE_BITS, b: ONE_BITS, a: ONE_BITS }
}

/// The all-zero color a fresh pixel buffer is filled with.
pub open spec fn default_color() -> Color {
    Color { r: ZERO_BITS, g: ZERO_BITS, b: ZERO_BITS, a: ZERO_BITS }
}

impl Color {
    pub fn new(r: u32, g: u32, b: u32, a: u32) -> (c: Color)
        ensures
            c == (Color { r, g, b, a }),
    {
        Color { r, g, b, a }
    }

    /// Opaque white.
    pub fn white() -> (c: Color)
        ensures
            c == white_color(),
    {
        Color { r: ONE_BITS, g: ONE_BITS, b: ONE_BITS, a: ONE_BITS }
    }
}

impl Default for Color {
    /// The all-zero color.
    fn default() -> (c: Color)
        ensures
            c == default_color(),
    {
        Color { r: ZERO_BITS, g: ZERO_BITS, b: ZERO_BITS, a: ZERO_BITS }
    }
}

} // verus!
