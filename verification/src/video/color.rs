//! The four shades of the screen, and how they are put into bytes.
use vstd::prelude::*;

verus! {

/// A shade, from lightest to darkest.
#[derive(Copy, Clone, Debug, PartialEq, Eq, Structural)]
pub enum Color {
    White,
    LightGray,
    DarkGray,
    Black,
}

/// How a colour is put into bytes.
#[derive(Copy, Clone, Debug, PartialEq, Eq, Structural)]
pub enum ColorFormat {
    /// Red, green, blue.
    RGB,
    /// Red, green, blue, and an opacity that is always full.
    RGBA,
}

impl ColorFormat {
    /// The number of bytes that a colour takes up.
    pub open spec fn width(self) -> int {
        match self {
            ColorFormat::RGB => 3,
            ColorFormat::RGBA => 4,
        }
    }
}

impl Color {
    /// The colour with number `index`, from 0 for white to 3 for black;
    /// only the low two bits of `index` count.
    pub open spec fn of_index(index: int) -> Color {
        if index % 4 == 0 {
            Color::White
        } else if index % 4 == 1 {
            Color::LightGray
        } else if index % 4 == 2 {
            Color::DarkGray
        } else {
            Color::Black
        }
    }

    /// How light the colour is, from 0 for black to 255 for white.
    pub open spec fn shade(self) -> u8 {
        match self {
            Color::White => 255,
            Color::LightGray => 170,
            Color::DarkGray => 85,
            Color::Black => 0,
        }
    }

    /// The bytes of the colour in a format: a gray, so red, green and blue
    /// are all the shade.
    pub open spec fn formatted(self, format: ColorFormat) -> Seq<u8> {
        match format {
            ColorFormat::RGB => seq![self.shade(), self.shade(), self.shade()],
            ColorFormat::RGBA => seq![self.shade(), self.shade(), self.shade(), 255u8],
        }
    }

    pub fn from_index(index: u8) -> (r: Color)
        ensures
            r == Color::of_index(index as int),
    {
        match index % 4 {
            0 => Color::White,
            1 => Color::LightGray,
            2 => Color::DarkGray,
            _ => Color::Black,
        }
    }

    pub fn format(self, format: ColorFormat) -> (r: Vec<u8>)
        ensures
            r@ == self.formatted(format),
    {
        let shade: u8 = match self {
            Color::White => 255,
            Color::LightGray => 170,
            Color::DarkGray => 85,
            Color::Black => 0,
        };
        let mut bytes: Vec<u8> = Vec::new();
        bytes.push(shade);
        bytes.push(shade);
        bytes.push(shade);
        if format == ColorFormat::RGBA {
            bytes.push(255);
        }
        assert(bytes@ =~= self.formatted(format));
        bytes
    }
}

} // verus!
