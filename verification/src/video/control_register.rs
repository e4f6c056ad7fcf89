//! The control register of the picture unit.
use crate::util::bits;
use crate::util::bits::bit_of;
use vstd::prelude::*;

verus! {

/// How a tile map's bytes address the tile data.
#[derive(Copy, Clone, Debug, PartialEq, Eq, Structural)]
pub enum TileDataAddressing {
    /// A byte is the number of a tile in the first block of tile data.
    Mode8000,
    /// A byte is a signed offset from the middle of the tile data: bytes
    /// below 128 name tiles 256 and up.
    Mode8800,
}

/// The control register: eight switches, one to the bit.
#[derive(Copy, Clone, Debug)]
pub struct ControlRegister {
    pub register: u8,
}

impl ControlRegister {
    /// Bit 7: the screen is on.
    pub fn lcd_enabled(&self) -> (r: bool)
        ensures
            r == bit_of(self.register, 7),
    {
        bits::get_bit(self.register, 7)
    }

    /// Bit 6: which of the two tile maps the window shows.
    pub fn window_bg_map(&self) -> (r: u8)
        ensures
            r == if bit_of(self.register, 6) {
                1int
            } else {
                0int
            },
    {
        if bits::get_bit(self.register, 6) {
            1
        } else {
            0
        }
    }

    /// Bit 5: the window is shown.
    pub fn window_enabled(&self) -> (r: bool)
        ensures
            r == bit_of(self.register, 5),
    {
        bits::get_bit(self.register, 5)
    }

    /// Bit 4: how the tile maps address the tile data; set for the plain
    /// mode.
    pub fn bg_tile_data_addressing(&self) -> (r: TileDataAddressing)
        ensures
            r == if bit_of(self.register, 4) {
                TileDataAddressing::Mode8000
            } else {
                TileDataAddressing::Mode8800
            },
    {
        if bits::get_bit(self.register, 4) {
            TileDataAddressing::Mode8000
        } else {
            TileDataAddressing::Mode8800
        }
    }

    /// Bit 3: which of the two tile maps the background shows.
    pub fn bg_map(&self) -> (r: u8)
        ensures
            r == if bit_of(self.register, 3) {
                1int
            } else {
                0int
            },
    {
        if bits::get_bit(self.register, 3) {
            1
        } else {
            0
        }
    }

    /// Bit 2: sprites are two tiles tall.
    pub fn obj_big_size(&self) -> (r: bool)
        ensures
            r == bit_of(self.register, 2),
    {
        bits::get_bit(self.register, 2)
    }

    /// Bit 1: sprites are shown.
    pub fn obj_enabled(&self) -> (r: bool)
        ensures
            r == bit_of(self.register, 1),
    {
        bits::get_bit(self.register, 1)
    }

    /// Bit 0: background and window are shown.
    pub fn bg_window_enabled(&self) -> (r: bool)
        ensures
            r == bit_of(self.register, 0),
    {
        bits::get_bit(self.register, 0)
    }
}

} // verus!
