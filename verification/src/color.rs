use vstd::prelude::*;

verus! {

/// Bit pattern of the double-precision value nearest to one tenth.
pub const TENTH: u64 = 0x3FB9_9999_9999_999A;

/// Bit pattern of the double-precision value one.
pub const ONE: u64 = 0x3FF0_0000_0000_0000;

/// An RGBA colour.
///
/// The renderer only stores channel values and hands them on, so each channel
/// is kept as the 64-bit pattern of its double-precision value.
#[derive(Clone, Copy, Debug, PartialEq, Eq, Structural)]
pub struct Color {
    pub r: u64,
    pub g: u64,
    pub b: u64,
    pub a: u64,
}

impl Color {
    /// The colour a surface is cleared to until told otherwise: opaque dark grey.
    pub open spec fn dark_grey() -> Color {
        Color { r: TENTH, g: TENTH, b: TENTH, a: ONE }
    }

    /// This colour with its red and green channels replaced.
    pub open spec fn with_red_green(self, red: u64, green: u64) -> Color {
        Color { r: red, g: green, b: self.b, a: self.a }
    }

    /// Opaque dark grey.
    pub fn initial() -> (color: Color)
        ensures
            color == Color::dark_grey(),
    {
        Color { r: TENTH, g: TENTH, b: TENTH, a: ONE }
    }

    /// This colour with its red and green channels replaced; blue and
    /// alpha stay.
    pub fn replace_red_green(self, red: u64, green: u64) -> (color: Color)
        ensures
            color == self.with_red_green(red, green),
            color.r == red,
            color.g == green,
            color.b == self.b,
            color.a == self.a,
    {
        Color { r: red, g: green, b: self.b, a: self.a }
    }
}

} // verus!
