//! The memory of the picture unit: the tile data, the two tile maps, and
//! the sprites.
use crate::video::memory::background_tile_map::BackgroundTileMap;
use crate::video::memory::sprite_attribute_table::{OAMEntry, SpriteAttributeTable};
use crate::video::tile::Tile;
use vstd::prelude::*;

pub mod background_tile_map;
pub mod sprite_attribute_table;

verus! {

/// The number of tiles that the tile data holds.
pub const TILE_COUNT: usize = 384;

/// The memory of the picture unit.
pub struct VideoMemory {
    tile_data: [Tile; 384],
    background_tile_maps: (BackgroundTileMap, BackgroundTileMap),
    oam: SpriteAttributeTable,
}

impl VideoMemory {
    /// The tile data.
    pub closed spec fn tiles(&self) -> Seq<Tile> {
        self.tile_data@
    }

    /// The two tile maps.
    pub closed spec fn maps(&self) -> (BackgroundTileMap, BackgroundTileMap) {
        self.background_tile_maps
    }

    /// The sprites.
    pub closed spec fn sprites(&self) -> Seq<OAMEntry> {
        self.oam.entries@
    }

    /// Memory with white tiles, maps of zeros, and no sprites.
    pub fn new() -> (r: VideoMemory)
        ensures
            r.tiles().len() == TILE_COUNT,
            forall|i: int, j: int| 0 <= i < TILE_COUNT && 0 <= j < 16 ==> r.tiles()[i].data[j] == 0,
            forall|address: int|
                0 <= address < 1024 ==> r.maps().0.tile(address) == 0 && r.maps().1.tile(address)
                    == 0,
            r.sprites().len() == 0,
    {
        let tile_data = [Tile { data: [0; 16] }; 384];
        VideoMemory {
            tile_data,
            background_tile_maps: (BackgroundTileMap::new(), BackgroundTileMap::new()),
            oam: SpriteAttributeTable { entries: Vec::new() },
        }
    }

    pub fn tile_data(&self) -> (r: &[Tile; 384])
        ensures
            r@ == self.tiles(),
    {
        &self.tile_data
    }

    pub fn background_tile_maps(&self) -> (r: &(BackgroundTileMap, BackgroundTileMap))
        ensures
            *r == self.maps(),
    {
        &self.background_tile_maps
    }

    pub fn oam(&self) -> (r: &SpriteAttributeTable)
        ensures
            r.entries@ == self.sprites(),
    {
        &self.oam
    }

    /// Puts `tile` at place `index` of the tile data.
    pub fn set_tile(&mut self, index: usize, tile: Tile)
        requires
            index < TILE_COUNT,
        ensures
            final(self).tiles() == old(self).tiles().update(index as int, tile),
            final(self).maps() == old(self).maps(),
            final(self).sprites() == old(self).sprites(),
    {
        self.tile_data[index] = tile;
    }

    /// Writes one byte of a tile map: of the first if `second` is false, of
    /// the second if it is true.
    pub fn set_tile_idx_at(&mut self, second: bool, address: u16, value: u8)
        requires
            address < 1024,
        ensures
            final(self).tiles() == old(self).tiles(),
            final(self).sprites() == old(self).sprites(),
            second ==> final(self).maps().0 == old(self).maps().0 && final(self).maps().1.tile(
                address as int,
            ) == value,
            !second ==> final(self).maps().1 == old(self).maps().1 && final(self).maps().0.tile(
                address as int,
            ) == value,
    {
        let mut maps = (BackgroundTileMap::new(), BackgroundTileMap::new());
        std::mem::swap(&mut maps, &mut self.background_tile_maps);
        if second {
            maps.1.set_tile_idx_at(address, value);
        } else {
            maps.0.set_tile_idx_at(address, value);
        }
        self.background_tile_maps = maps;
    }

    /// Replaces the sprites.
    pub fn set_sprites(&mut self, entries: Vec<OAMEntry>)
        ensures
            final(self).tiles() == old(self).tiles(),
            final(self).maps() == old(self).maps(),
            final(self).sprites() == entries@,
    {
        self.oam = SpriteAttributeTable { entries };
    }
}

} // verus!
