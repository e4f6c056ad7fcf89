//! A tile: eight rows of eight pixels, two bits to the pixel.
use crate::util::bits;
use crate::util::bits::bit_of;
use crate::video::color::Color;
use vstd::prelude::*;

verus! {

/// A tile. Row `y` is bytes `2 * y` and `2 * y + 1`: the first holds the
/// low bit of each pixel's colour, the second the high bit, the leftmost
/// pixel in bit 7.
#[derive(Copy, Clone, Debug)]
pub struct Tile {
    pub data: [u8; 16],
}

impl Tile {
    /// The colour of the pixel in column `x` of row `y`.
    pub open spec fn pixel(&self, x: int, y: int) -> Color {
        let low = bit_of(self.data[2 * y], (7 - x) as u8);
        let high = bit_of(self.data[2 * y + 1], (7 - x) as u8);
        Color::of_index(
            (if high {
                2int
            } else {
                0int
            }) + (if low {
                1int
            } else {
                0int
            }),
        )
    }

    /// The colour of the pixel in column `x` of row `y` of the tile turned
    /// over: left to right if `x_flipped`, top to bottom if `y_flipped`.
    pub open spec fn pixel_flipped(&self, x: int, y: int, x_flipped: bool, y_flipped: bool)
        -> Color {
        self.pixel(
            if x_flipped {
                7 - x
            } else {
                x
            },
            if y_flipped {
                7 - y
            } else {
                y
            },
        )
    }

    /// The 64 pixels of the tile, turned over as asked, row by row.
    pub open spec fn pixels(&self, x_flipped: bool, y_flipped: bool) -> Seq<Color> {
        Seq::new(64, |i: int| self.pixel_flipped(i % 8, i / 8, x_flipped, y_flipped))
    }

    /// A tile of white pixels.
    pub fn new() -> (r: Tile)
        ensures
            r.data@ == Seq::new(16, |i: int| 0u8),
    {
        let tile = Tile { data: [0; 16] };
        assert(tile.data@ =~= Seq::new(16, |i: int| 0u8));
        tile
    }

    /// The pixels of the tile, row by row.
    pub fn colored(&self) -> (r: Vec<Color>)
        ensures
            r@ == self.pixels(false, false),
    {
        self.colored_with_options(false, false)
    }

    /// The pixels of the tile, turned over as asked, row by row.
    pub fn colored_with_options(&self, x_flipped: bool, y_flipped: bool) -> (r: Vec<Color>)
        ensures
            r@ == self.pixels(x_flipped, y_flipped),
    {
        let mut colors: Vec<Color> = Vec::new();
        let mut y: usize = 0;
        while y < 8
            invariant
                y <= 8,
                colors@.len() == y * 8,
                forall|i: int|
                    0 <= i < y * 8 ==> colors@[i] == self.pixel_flipped(
                        i % 8,
                        i / 8,
                        x_flipped,
                        y_flipped,
                    ),
            decreases 8 - y,
        {
            let row: usize = if y_flipped {
                7 - y
            } else {
                y
            };
            let mut x: usize = 0;
            while x < 8
                invariant
                    y < 8,
                    x <= 8,
                    row == if y_flipped {
                        7 - y
                    } else {
                        y as int
                    },
                    colors@.len() == y * 8 + x,
                    forall|i: int|
                        0 <= i < y * 8 + x ==> colors@[i] == self.pixel_flipped(
                            i % 8,
                            i / 8,
                            x_flipped,
                            y_flipped,
                        ),
                decreases 8 - x,
            {
                let column: usize = if x_flipped {
                    7 - x
                } else {
                    x
                };
                let low: bool = bits::get_bit(self.data[2 * row], (7 - column) as u8);
                let high: bool = bits::get_bit(self.data[2 * row + 1], (7 - column) as u8);
                let mut index: u8 = 0;
                if high {
                    index = index + 2;
                }
                if low {
                    index = index + 1;
                }
                colors.push(Color::from_index(index));
                x = x + 1;
            }
            y = y + 1;
        }
        assert(colors@ =~= self.pixels(x_flipped, y_flipped));
        colors
    }
}

} // verus!
