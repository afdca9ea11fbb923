//! Colors and cells of the character-addressed display.

use vstd::prelude::*;

verus! {

/// The sixteen colors of the display's palette.
#[derive(Clone, Copy, PartialEq, Eq, Debug, Structural)]
pub enum Color {
    Black,
    Blue,
    Green,
    Cyan,
    Red,
    Magenta,
    Brown,
    LightGray,
    DarkGray,
    LightBlue,
    LightGreen,
    LightCyan,
    LightRed,
    Pink,
    Yellow,
    White,
}

impl Color {
    /// The palette index of a color.
    pub open spec fn spec_index(self) -> u8 {
        match self {
            Color::Black => 0,
            Color::Blue => 1,
            Color::Green => 2,
            Color::Cyan => 3,
            Color::Red => 4,
            Color::Magenta => 5,
            Color::Brown => 6,
            Color::LightGray => 7,
            Color::DarkGray => 8,
            Color::LightBlue => 9,
            Color::LightGreen => 10,
            Color::LightCyan => 11,
            Color::LightRed => 12,
            Color::Pink => 13,
            Color::Yellow => 14,
            Color::White => 15,
        }
    }

    pub fn index(self) -> (r: u8)
        ensures
            r == self.spec_index(),
            r < 16,
    {
        match self {
            Color::Black => 0,
            Color::Blue => 1,
            Color::Green => 2,
            Color::Cyan => 3,
            Color::Red => 4,
            Color::Magenta => 5,
            Color::Brown => 6,
            Color::LightGray => 7,
            Color::DarkGray => 8,
            Color::LightBlue => 9,
            Color::LightGreen => 10,
            Color::LightCyan => 11,
            Color::LightRed => 12,
            Color::Pink => 13,
            Color::Yellow => 14,
            Color::White => 15,
        }
    }
}

/// A cell attribute: background color in the high nibble, foreground in the low one.
#[derive(Clone, Copy, PartialEq, Eq, Debug, Structural)]
pub struct ColorCode(pub u8);

/// The attribute byte for a foreground on a background.
pub open spec fn attribute(foreground: Color, background: Color) -> u8 {
    (background.spec_index() * 16 + foreground.spec_index()) as u8
}

impl ColorCode {
    pub fn new(foreground: Color, background: Color) -> (r: ColorCode)
        ensures
            r.0 == attribute(foreground, background),
    {
        let f = foreground.index();
        let b = background.index();
        let r = (b << 4u8) | f;
        assert(r == b * 16 + f) by (bit_vector)
            requires
                r == (b << 4u8) | f,
                b < 16,
                f < 16,
        ;
        ColorCode(r)
    }

    /// Light gray on black.
    pub fn default() -> (r: ColorCode)
        ensures
            r.0 == attribute(Color::LightGray, Color::Black),
            r.0 == 7,
    {
        ColorCode::new(Color::LightGray, Color::Black)
    }
}

/// One cell of the display: a code page byte and its attribute.
#[derive(Clone, Copy, PartialEq, Eq, Debug, Structural)]
pub struct ScreenChar {
    pub ascii_character: u8,
    pub color_code: ColorCode,
}

} // verus!
