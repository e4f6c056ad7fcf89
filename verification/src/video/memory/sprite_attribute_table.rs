//! The sprites: where each is, which tile it shows, and how.
use crate::util::bits;
use crate::util::bits::bit_of;
use vstd::prelude::*;

verus! {

/// One sprite. Its position is that of its bottom right corner, counted so
/// that a sprite at (8, 16) is in the top left corner of the screen.
#[derive(Copy, Clone, Debug)]
pub struct OAMEntry {
    /// Column and row.
    pub position: (u8, u8),
    pub tile_number: u8,
    pub flags: u8,
}

impl OAMEntry {
    /// Whether any part of the sprite can be on the screen.
    pub open spec fn shown(&self) -> bool {
        0 < self.position.0 < 168 && 0 < self.position.1 < 160
    }

    pub fn visible(&self) -> (r: bool)
        ensures
            r == self.shown(),
    {
        self.position.0 > 0 && self.position.0 < 168 && self.position.1 > 0 && self.position.1
            < 160
    }

    /// Bit 7 of the flags: the sprite is behind the background.
    pub fn behind_bg(&self) -> (r: bool)
        ensures
            r == bit_of(self.flags, 7),
    {
        bits::get_bit(self.flags, 7)
    }

    /// Bit 6 of the flags: the sprite is turned over top to bottom.
    pub fn y_flipped(&self) -> (r: bool)
        ensures
            r == bit_of(self.flags, 6),
    {
        bits::get_bit(self.flags, 6)
    }

    /// Bit 5 of the flags: the sprite is turned over left to right.
    pub fn x_flipped(&self) -> (r: bool)
        ensures
            r == bit_of(self.flags, 5),
    {
        bits::get_bit(self.flags, 5)
    }

    /// Bit 4 of the flags: which of the two sprite palettes colours the
    /// sprite.
    pub fn obj_palette_number(&self) -> (r: u8)
        ensures
            r == if bit_of(self.flags, 4) {
                1int
            } else {
                0int
            },
    {
        if bits::get_bit(self.flags, 4) {
            1
        } else {
            0
        }
    }
}

/// The sprites, in the order in which they are drawn.
pub struct SpriteAttributeTable {
    pub entries: Vec<OAMEntry>,
}

impl SpriteAttributeTable {
    pub fn entries(&self) -> (r: &Vec<OAMEntry>)
        ensures
            r@ == self.entries@,
    {
        &self.entries
    }
}

} // verus!
