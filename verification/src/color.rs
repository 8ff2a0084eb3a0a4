use vstd::prelude::*;

verus! {

/// An RGBA color with eight bits per channel. The rendering backend divides
/// each channel by 255 when it needs the value as a fraction of one.
#[derive(Clone, Copy, Debug, PartialEq, Eq, Structural)]
pub struct Color {
    /// The red component, 0 to 255.
    pub red: u8,
    /// The green component, 0 to 255.
    pub green: u8,
    /// The blue component, 0 to 255.
    pub blue: u8,
    /// The alpha component, 0 to 255.
    pub alpha: u8,
}

impl Color {
    /// Create a new fully opaque color from the RGB components.
    pub fn rgb(red: u8, green: u8, blue: u8) -> (r: Color)
        ensures
            r == (Color { red, green, blue, alpha: 255 }),
    {
        Self::rgba(red, green, blue, 255)
    }

    /// Create a new color from the RGBA components.
    pub fn rgba(red: u8, green: u8, blue: u8, alpha: u8) -> (r: Color)
        ensures
            r == (Color { red, green, blue, alpha }),
    {
        Color { red, green, blue, alpha }
    }

    /// Get a color representing fully opaque black.
    pub fn black() -> (r: Color)
        ensures
            r == (Color { red: 0, green: 0, blue: 0, alpha: 255 }),
    {
        Self::rgb(0, 0, 0)
    }

    /// Get a color representing fully opaque white.
    pub fn white() -> (r: Color)
        ensures
            r == (Color { red: 255, green: 255, blue: 255, alpha: 255 }),
    {
        Self::rgb(255, 255, 255)
    }
}

} // verus!
