//! Four-channel, eight-bit colors and the sixteen-color palette.

use vstd::prelude::*;

verus! {

/// An RGBA color with eight bits per channel.
#[derive(Copy, Clone, Debug, PartialEq, Eq, Structural)]
pub struct Color {
    pub r: u8,
    pub g: u8,
    pub b: u8,
    pub a: u8,
}

impl Color {
    /// The color with the given channels. Every combination of channels is a
    /// color.
    pub fn new(r: u8, g: u8, b: u8, a: u8) -> (color: Color)
        ensures
            color == (Color { r, g, b, a }),
    {
        Color { r, g, b, a }
    }

    /// The four channels in the order in which they are laid out as bytes:
    /// red, green, blue, alpha.
    pub open spec fn channels(self) -> Seq<u8> {
        seq![self.r, self.g, self.b, self.a]
    }

    /// Opaque black.
    pub fn black() -> (color: Color)
        ensures
            color == (Color { r: 0, g: 0, b: 0, a: 255 }),
    {
        Color { r: 0, g: 0, b: 0, a: 255 }
    }

    /// Dark blue.
    pub fn blue() -> (color: Color)
        ensures
            color == (Color { r: 0, g: 0, b: 170, a: 255 }),
    {
        Color { r: 0, g: 0, b: 170, a: 255 }
    }

    /// Dark green.
    pub fn green() -> (color: Color)
        ensures
            color == (Color { r: 0, g: 170, b: 0, a: 255 }),
    {
        Color { r: 0, g: 170, b: 0, a: 255 }
    }

    /// Dark cyan.
    pub fn cyan() -> (color: Color)
        ensures
            color == (Color { r: 0, g: 170, b: 170, a: 255 }),
    {
        Color { r: 0, g: 170, b: 170, a: 255 }
    }

    /// Dark red.
    pub fn red() -> (color: Color)
        ensures
            color == (Color { r: 170, g: 0, b: 0, a: 255 }),
    {
        Color { r: 170, g: 0, b: 0, a: 255 }
    }

    /// Dark magenta.
    pub fn magenta() -> (color: Color)
        ensures
            color == (Color { r: 170, g: 0, b: 170, a: 255 }),
    {
        Color { r: 170, g: 0, b: 170, a: 255 }
    }

    /// Dark yellow, which shows as brown.
    pub fn yellow() -> (color: Color)
        ensures
            color == (Color { r: 170, g: 85, b: 0, a: 255 }),
    {
        Color { r: 170, g: 85, b: 0, a: 255 }
    }

    /// Light gray, the dimmer of the two whites.
    pub fn white() -> (color: Color)
        ensures
            color == (Color { r: 170, g: 170, b: 170, a: 255 }),
    {
        Color { r: 170, g: 170, b: 170, a: 255 }
    }

    /// Dark gray.
    pub fn dark_gray() -> (color: Color)
        ensures
            color == (Color { r: 85, g: 85, b: 85, a: 255 }),
    {
        Color { r: 85, g: 85, b: 85, a: 255 }
    }

    /// Bright blue.
    pub fn bright_blue() -> (color: Color)
        ensures
            color == (Color { r: 85, g: 85, b: 255, a: 255 }),
    {
        Color { r: 85, g: 85, b: 255, a: 255 }
    }

    /// Bright green.
    pub fn bright_green() -> (color: Color)
        ensures
            color == (Color { r: 85, g: 255, b: 85, a: 255 }),
    {
        Color { r: 85, g: 255, b: 85, a: 255 }
    }

    /// Bright cyan.
    pub fn bright_cyan() -> (color: Color)
        ensures
            color == (Color { r: 85, g: 255, b: 255, a: 255 }),
    {
        Color { r: 85, g: 255, b: 255, a: 255 }
    }

    /// Bright red.
    pub fn bright_red() -> (color: Color)
        ensures
            color == (Color { r: 255, g: 85, b: 85, a: 255 }),
    {
        Color { r: 255, g: 85, b: 85, a: 255 }
    }

    /// Bright magenta.
    pub fn bright_magenta() -> (color: Color)
        ensures
            color == (Color { r: 255, g: 85, b: 255, a: 255 }),
    {
        Color { r: 255, g: 85, b: 255, a: 255 }
    }

    /// Bright yellow.
    pub fn bright_yellow() -> (color: Color)
        ensures
            color == (Color { r: 255, g: 255, b: 85, a: 255 }),
    {
        Color { r: 255, g: 255, b: 85, a: 255 }
    }

    /// Full white.
    pub fn bright_white() -> (color: Color)
        ensures
            color == (Color { r: 255, g: 255, b: 255, a: 255 }),
    {
        Color { r: 255, g: 255, b: 255, a: 255 }
    }
}

impl Default for Color {
    /// Opaque black.
    fn default() -> (color: Color)
        ensures
            color == (Color { r: 0, g: 0, b: 0, a: 255 }),
    {
        Color { r: 0, g: 0, b: 0, a: 255 }
    }
}

} // verus!
