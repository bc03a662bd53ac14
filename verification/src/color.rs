//! Display colors: a fixed 16-entry color enumeration, and the packed
//! text/background attribute byte of a screen cell.

use vstd::prelude::*;

verus! {

/// A color, usable for both the text and the background of a cell.
#[derive(Debug, Copy, Clone, Eq, PartialEq, Structural)]
pub enum Color {
    Black,
    Blue,
    Green,
    Cyan,
    Red,
    Magenta,
    Brown,
    LightGray,
    DarkGray,
    LightBlue,
    LightGreen,
    LightCyan,
    LightRed,
    LightMagenta,
    Yellow,
    White,
}

/// The 4-bit code a color occupies in the packed attribute byte.
pub open spec fn color_code_spec(c: Color) -> u8 {
    match c {
        Color::Black => 0x0,
        Color::Blue => 0x1,
        Color::Green => 0x2,
        Color::Cyan => 0x3,
        Color::Red => 0x4,
        Color::Magenta => 0x5,
        Color::Brown => 0x6,
        Color::LightGray => 0x7,
        Color::DarkGray => 0x8,
        Color::LightBlue => 0x9,
        Color::LightGreen => 0xa,
        Color::LightCyan => 0xb,
        Color::LightRed => 0xc,
        Color::LightMagenta => 0xd,
        Color::Yellow => 0xe,
        Color::White => 0xf,
    }
}

impl Color {
    /// Returns the color's 4-bit code.
    pub fn code(self) -> (v: u8)
        ensures
            v == color_code_spec(self),
            v < 16,
    {
        match self {
            Color::Black => 0x0,
            Color::Blue => 0x1,
            Color::Green => 0x2,
            Color::Cyan => 0x3,
            Color::Red => 0x4,
            Color::Magenta => 0x5,
            Color::Brown => 0x6,
            Color::LightGray => 0x7,
            Color::DarkGray => 0x8,
            Color::LightBlue => 0x9,
            Color::LightGreen => 0xa,
            Color::LightCyan => 0xb,
            Color::LightRed => 0xc,
            Color::LightMagenta => 0xd,
            Color::Yellow => 0xe,
            Color::White => 0xf,
        }
    }

    /// Returns the color of a 4-bit code. Every code below 16 names a color,
    /// so no decode failure is possible.
    pub fn from_code(v: u8) -> (c: Color)
        requires
            v < 16,
        ensures
            color_code_spec(c) == v,
    {
        match v {
            0x0 => Color::Black,
            0x1 => Color::Blue,
            0x2 => Color::Green,
            0x3 => Color::Cyan,
            0x4 => Color::Red,
            0x5 => Color::Magenta,
            0x6 => Color::Brown,
            0x7 => Color::LightGray,
            0x8 => Color::DarkGray,
            0x9 => Color::LightBlue,
            0xa => Color::LightGreen,
            0xb => Color::LightCyan,
            0xc => Color::LightRed,
            0xd => Color::LightMagenta,
            0xe => Color::Yellow,
            _ => Color::White,
        }
    }
}

/// The text and background colors of a cell, packed into one byte: the low
/// nibble is the text color, the high nibble the background color.
#[derive(Debug, Copy, Clone, Eq, PartialEq, Structural)]
pub struct Colors(pub u8);

/// The attribute byte packing a background over a text color.
pub open spec fn packed(text: Color, background: Color) -> u8 {
    (color_code_spec(background) * 16 + color_code_spec(text)) as u8
}

impl Colors {
    /// Creates new `Colors` with the default settings, light gray on black.
    pub fn new() -> (c: Colors)
        ensures
            c == Colors(packed(Color::LightGray, Color::Black)),
    {
        Colors::new_from(Color::LightGray, Color::Black)
    }

    /// Creates new `Colors` from text and background colors.
    pub fn new_from(text: Color, background: Color) -> (c: Colors)
        ensures
            c == Colors(packed(text, background)),
    {
        Colors(background.code() * 16 + text.code())
    }

    /// Sets the text color, leaving the background nibble untouched.
    pub fn set_text_color(&mut self, color: Color)
        ensures
            final(self).0 == old(self).0 / 16 * 16 + color_code_spec(color),
    {
        self.0 = self.0 / 16 * 16 + color.code();
    }

    /// Sets the background color, leaving the text nibble untouched.
    pub fn set_background_color(&mut self, color: Color)
        ensures
            final(self).0 == color_code_spec(color) * 16 + old(self).0 % 16,
    {
        self.0 = color.code() * 16 + self.0 % 16;
    }

    /// Returns the text color: the low nibble, always in range by
    /// construction.
    pub fn text(self) -> (c: Color)
        ensures
            color_code_spec(c) == self.0 % 16,
    {
        Color::from_code(self.0 % 16)
    }

    /// Returns the background color: the high nibble, always in range by
    /// construction.
    pub fn background(self) -> (c: Color)
        ensures
            color_code_spec(c) == self.0 / 16,
    {
        Color::from_code(self.0 / 16)
    }
}

impl Default for Colors {
    /// The default colors: light gray on black.
    fn default() -> (c: Colors)
        ensures
            c == Colors(packed(Color::LightGray, Color::Black)),
    {
        Colors::new()
    }
}

/// The default attribute byte: light gray on black.
pub open spec fn default_colors() -> Colors {
    Colors(packed(Color::LightGray, Color::Black))
}

/// Packing is lossless: the two nibbles read back as the colors that were
/// packed, whichever way they were set.
pub proof fn lemma_colors_pack_unpack(text: Color, background: Color)
    ensures
        packed(text, background) / 16 == color_code_spec(background),
        packed(text, background) % 16 == color_code_spec(text),
{
}

} // verus!
