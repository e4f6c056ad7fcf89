//! A background tile map: 32 rows of 32 tile numbers.
use crate::video::control_register::TileDataAddressing;
use vstd::prelude::*;

verus! {

/// The number of tiles in a row of the map, and of rows in the map.
pub const MAP_SIDE: u16 = 32;

/// The number of tiles in the map.
pub const MAP_TILES: u16 = 1024;

/// A tile map. Tile `address` is in row `address / 32`, column
/// `address % 32`.
pub struct BackgroundTileMap {
    tiles: [[u8; 32]; 32],
}

/// The tile that a byte of the map names under an addressing mode.
pub open spec fn adjusted(tile_index: u8, addressing_mode: TileDataAddressing) -> u16 {
    if addressing_mode == TileDataAddressing::Mode8800 && tile_index < 128 {
        (tile_index + 256) as u16
    } else {
        tile_index as u16
    }
}

impl BackgroundTileMap {
    /// The byte of the map at `address`.
    pub closed spec fn tile(&self, address: int) -> u8 {
        self.tiles[address / 32][address % 32]
    }

    /// A map of zeros.
    pub fn new() -> (r: Self)
        ensures
            forall|address: int| 0 <= address < MAP_TILES ==> r.tile(address) == 0,
    {
        BackgroundTileMap { tiles: [[0; 32]; 32] }
    }

    /// The tiles that the map names under `addressing_mode`, row by row.
    pub fn adjusted_tiles(&self, addressing_mode: TileDataAddressing) -> (r: Vec<u16>)
        ensures
            r@.len() == MAP_TILES,
            forall|address: int|
                0 <= address < MAP_TILES ==> r@[address] == adjusted(
                    self.tile(address),
                    addressing_mode,
                ),
    {
        let mut tiles: Vec<u16> = Vec::new();
        let mut row: usize = 0;
        while row < 32
            invariant
                row <= 32,
                tiles@.len() == row * 32,
                forall|address: int|
                    0 <= address < row * 32 ==> tiles@[address] == adjusted(
                        self.tile(address),
                        addressing_mode,
                    ),
            decreases 32 - row,
        {
            let mut column: usize = 0;
            while column < 32
                invariant
                    row < 32,
                    column <= 32,
                    tiles@.len() == row * 32 + column,
                    forall|address: int|
                        0 <= address < row * 32 + column ==> tiles@[address] == adjusted(
                            self.tile(address),
                            addressing_mode,
                        ),
                decreases 32 - column,
            {
                let tile_index: u8 = self.tiles[row][column];
                let tile: u16 = if addressing_mode == TileDataAddressing::Mode8800 && tile_index
                    < 128 {
                    tile_index as u16 + 256
                } else {
                    tile_index as u16
                };
                assert(self.tile(row * 32 + column) == tile_index);
                tiles.push(tile);
                column = column + 1;
            }
            row = row + 1;
        }
        tiles
    }

    /// The row and the column of the tile at `address`.
    pub fn tile_info_at(&self, address: u16) -> (r: (usize, usize))
        ensures
            r.0 == address / 32,
            r.1 == address % 32,
    {
        let row: u16 = (address - (address % 32)) / 32;
        let column: u16 = address - row * 32;
        (row as usize, column as usize)
    }

    pub fn tile_idx_at(&self, address: u16) -> (r: u8)
        requires
            address < MAP_TILES,
        ensures
            r == self.tile(address as int),
    {
        let (row, column) = self.tile_info_at(address);
        self.tiles[row][column]
    }

    pub fn set_tile_idx_at(&mut self, address: u16, value: u8)
        requires
            address < MAP_TILES,
        ensures
            final(self).tile(address as int) == value,
            forall|other: int|
                0 <= other < MAP_TILES && other != address ==> final(self).tile(other) == old(
                    self,
                ).tile(other),
    {
        let (row, column) = self.tile_info_at(address);
        self.tiles[row][column] = value;
    }
}

} // verus!
