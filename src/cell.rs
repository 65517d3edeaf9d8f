//! Palette colours, packed colour codes and the two-byte screen cell.
use vstd::prelude::*;

verus! {

/// One of the sixteen palette entries of VGA text mode.
#[derive(Clone, Copy, Debug, PartialEq, Eq, Structural)]
pub enum Color {
    Black,
    Blue,
    Green,
    Cyan,
    Red,
    Magenta,
    Brown,
    LightGray,
    DarkGray,
    LightBlue,
    LightGreen,
    LightCyan,
    LightRed,
    Pink,
    Yellow,
    White,
}

impl Color {
    /// The four-bit hardware index of the colour.
    pub open spec fn index(self) -> u8 {
        match self {
            Color::Black => 0,
            Color::Blue => 1,
            Color::Green => 2,
            Color::Cyan => 3,
            Color::Red => 4,
            Color::Magenta => 5,
            Color::Brown => 6,
            Color::LightGray => 7,
            Color::DarkGray => 8,
            Color::LightBlue => 9,
            Color::LightGreen => 10,
            Color::LightCyan => 11,
            Color::LightRed => 12,
            Color::Pink => 13,
            Color::Yellow => 14,
            Color::White => 15,
        }
    }

    pub fn code(self) -> (r: u8)
        ensures
            r == self.index(),
            r < 16,
    {
        match self {
            Color::Black => 0,
            Color::Blue => 1,
            Color::Green => 2,
            Color::Cyan => 3,
            Color::Red => 4,
            Color::Magenta => 5,
            Color::Brown => 6,
            Color::LightGray => 7,
            Color::DarkGray => 8,
            Color::LightBlue => 9,
            Color::LightGreen => 10,
            Color::LightCyan => 11,
            Color::LightRed => 12,
            Color::Pink => 13,
            Color::Yellow => 14,
            Color::White => 15,
        }
    }
}

/// An attribute byte: background in the high nibble, foreground in the low one.
#[derive(Clone, Copy, Debug, PartialEq, Eq, Structural)]
pub struct ColorCode(u8);

impl ColorCode {
    /// The attribute byte.
    pub closed spec fn bits(self) -> u8 {
        self.0
    }

    pub fn new(foreground: Color, background: Color) -> (r: ColorCode)
        ensures
            r.bits() == background.index() * 16 + foreground.index(),
    {
        let fg = foreground.code();
        let bg = background.code();
        ColorCode(bg * 16 + fg)
    }

    pub fn byte(self) -> (r: u8)
        ensures
            r == self.bits(),
    {
        self.0
    }

    /// The background colour's index.
    pub fn background(self) -> (r: u8)
        ensures
            r == self.bits() / 16,
    {
        self.0 / 16
    }

    /// The foreground colour's index.
    pub fn foreground(self) -> (r: u8)
        ensures
            r == self.bits() % 16,
    {
        self.0 % 16
    }
}

/// A character byte and its attribute, as one cell of the grid holds them.
#[derive(Clone, Copy, Debug, PartialEq, Eq, Structural)]
pub struct ScreenChar {
    pub ascii_character: u8,
    pub color_code: ColorCode,
}

/// The cell that a word of the grid holds: the character in the low byte,
/// which x86, being little-endian, stores first, and the attribute in the
/// high byte.
pub closed spec fn decode(w: u16) -> ScreenChar {
    ScreenChar { ascii_character: (w % 256) as u8, color_code: ColorCode((w / 256) as u8) }
}

impl ScreenChar {
    /// A cell holding `ascii_character` drawn in `color_code`.
    pub fn encode(ascii_character: u8, color_code: ColorCode) -> (r: ScreenChar)
        ensures
            r.ascii_character == ascii_character,
            r.color_code == color_code,
    {
        ScreenChar { ascii_character, color_code }
    }

    /// The grid word of this cell.
    pub fn word(self) -> (r: u16)
        ensures
            decode(r) == self,
            r == self.ascii_character as u16 + self.color_code.bits() as u16 * 256,
    {
        let w: u16 = self.ascii_character as u16 + self.color_code.0 as u16 * 256;
        assert(decode(w) == self);
        w
    }

    /// The cell that a grid word holds.
    pub fn from_word(w: u16) -> (r: ScreenChar)
        ensures
            r == decode(w),
            r.ascii_character as int == w as int % 256,
            r.color_code.bits() as int == w as int / 256,
    {
        ScreenChar { ascii_character: (w % 256) as u8, color_code: ColorCode((w / 256) as u8) }
    }
}

} // verus!
