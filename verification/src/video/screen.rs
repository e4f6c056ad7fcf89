//! The picture on the screen: the background, scrolled; over it the window;
//! over both the sprites.
use crate::util::drawer;
use crate::util::drawer::{Entity, EntityShape};
use crate::util::wrap_value;
use crate::video::color::{Color, ColorFormat};
use crate::video::control_register::TileDataAddressing;
use crate::video::memory::background_tile_map::{adjusted, BackgroundTileMap};
use crate::video::memory::sprite_attribute_table::OAMEntry;
use crate::video::tile::Tile;
use crate::video::Video;
use vstd::prelude::*;

verus! {

/// The width and the height of the screen, in pixels.
pub const SCREEN_SIZE: (usize, usize) = (160, 144);

/// The width and the height of the background, in pixels.
pub const BACKGROUND_SIZE: (usize, usize) = (256, 256);

/// The number of pixels of the screen.
pub const SCREEN_PIXELS: usize = 23040;

/// The number of pixels of the background.
pub const BACKGROUND_PIXELS: usize = 65536;

/// The screen.
pub struct Screen {}

/// A sprite ready to be drawn: its tiles, from the top down, and where and
/// how it is to be shown.
#[derive(Debug)]
pub struct Sprite {
    pub tiles: Vec<Tile>,
    pub attributes: OAMEntry,
}

impl Sprite {
    pub fn x(&self) -> (r: u8)
        ensures
            r == self.attributes.position.0,
    {
        self.attributes.position.0
    }

    pub fn y(&self) -> (r: u8)
        ensures
            r == self.attributes.position.1,
    {
        self.attributes.position.1
    }

    pub fn x_flipped(&self) -> (r: bool)
        ensures
            r == crate::util::bits::bit_of(self.attributes.flags, 5),
    {
        self.attributes.x_flipped()
    }

    pub fn y_flipped(&self) -> (r: bool)
        ensures
            r == crate::util::bits::bit_of(self.attributes.flags, 6),
    {
        self.attributes.y_flipped()
    }
}

/// A picture of `length` white pixels.
pub open spec fn blank(length: int) -> Seq<Color> {
    Seq::new(length as nat, |i: int| Color::White)
}

/// A tile as an entity with its top left corner at column `x`, row `y`.
pub open spec fn tile_shape(tile: Tile, x: usize, y: usize) -> EntityShape {
    EntityShape { width: 8, height: 8, x, y, data: tile.pixels(false, false) }
}

/// The pixels of the first `count` of `tiles`, each turned over as asked,
/// one tile after the other.
pub open spec fn stacked(tiles: Seq<Tile>, x_flipped: bool, y_flipped: bool, count: int) -> Seq<
    Color,
>
    decreases count,
{
    if count <= 0 {
        Seq::empty()
    } else {
        stacked(tiles, x_flipped, y_flipped, count - 1) + tiles[count - 1].pixels(
            x_flipped,
            y_flipped,
        )
    }
}

/// A number minus `by`, but not below zero.
pub open spec fn lowered(number: u8, by: int) -> usize {
    if number >= by {
        (number - by) as usize
    } else {
        0
    }
}

/// A sprite as an entity: eight pixels wide, its tiles one below the
/// other, each turned over as the sprite asks, and placed so that a sprite
/// at (8, 16) is in the top left corner.
pub open spec fn sprite_shape(tiles: Seq<Tile>, attributes: OAMEntry) -> EntityShape {
    EntityShape {
        width: 8,
        height: (tiles.len() * 8) as usize,
        x: lowered(attributes.position.0, 8),
        y: lowered(attributes.position.1, 16),
        data: stacked(
            tiles,
            crate::util::bits::bit_of(attributes.flags, 5),
            crate::util::bits::bit_of(attributes.flags, 6),
            tiles.len() as int,
        ),
    }
}

impl Entity {
    pub fn from_sprite(sprite: &Sprite) -> (r: Self)
        requires
            sprite.tiles@.len() * 8 <= usize::MAX,
        ensures
            r@ == sprite_shape(sprite.tiles@, sprite.attributes),
    {
        let x_flipped: bool = sprite.x_flipped();
        let y_flipped: bool = sprite.y_flipped();
        let mut data: Vec<Color> = Vec::new();
        let mut i: usize = 0;
        while i < sprite.tiles.len()
            invariant
                i <= sprite.tiles@.len(),
                data@ == stacked(sprite.tiles@, x_flipped, y_flipped, i as int),
            decreases sprite.tiles.len() - i,
        {
            let mut pixels: Vec<Color> = sprite.tiles[i].colored_with_options(
                x_flipped,
                y_flipped,
            );
            data.append(&mut pixels);
            i = i + 1;
        }
        let x: usize = sprite.x() as usize;
        let y: usize = sprite.y() as usize;
        Entity {
            width: 8,
            height: sprite.tiles.len() * 8,
            x: if x >= 8 {
                x - 8
            } else {
                0
            },
            y: if y >= 16 {
                y - 16
            } else {
                0
            },
            data,
        }
    }

    pub fn from_tile(tile: &Tile, x: usize, y: usize) -> (r: Self)
        ensures
            r@ == tile_shape(*tile, x, y),
    {
        Entity { width: 8, height: 8, x, y, data: tile.colored() }
    }
}

/// The tiles that a tile map names under an addressing mode, row by row.
pub open spec fn adjusted_map(map: BackgroundTileMap, mode: TileDataAddressing) -> Seq<u16> {
    Seq::new(1024, |address: int| adjusted(map.tile(address), mode))
}

/// The picture of 256 by 256 pixels after the first `count` tiles that
/// `tiles` names are drawn: tile `i` with its top left corner at column
/// `8 * (i % 32)`, row `8 * (i / 32)`.
pub open spec fn map_drawn(tile_data: Seq<Tile>, tiles: Seq<u16>, count: int) -> Seq<Color>
    decreases count,
{
    if count <= 0 {
        blank(BACKGROUND_PIXELS as int)
    } else {
        let index = count - 1;
        tile_shape(
            tile_data[tiles[index] as int],
            (8 * (index % 32)) as usize,
            (8 * (index / 32)) as usize,
        ).drawn(map_drawn(tile_data, tiles, index), BACKGROUND_SIZE, false)
    }
}

/// The picture that a tile map makes with the tile data of `video`.
pub open spec fn map_picture(video: &Video, map: BackgroundTileMap) -> Seq<Color> {
    map_drawn(
        video.vram.tiles(),
        adjusted_map(
            map,
            if crate::util::bits::bit_of(video.control.register, 4) {
                TileDataAddressing::Mode8000
            } else {
                TileDataAddressing::Mode8800
            },
        ),
        1024,
    )
}

/// The picture of the background: that of the tile map that bit 3 of the
/// control register selects.
pub open spec fn background_picture(video: &Video) -> Seq<Color> {
    map_picture(
        video,
        if crate::util::bits::bit_of(video.control.register, 3) {
            video.vram.maps().1
        } else {
            video.vram.maps().0
        },
    )
}

/// The picture of the window: that of the tile map that bit 6 of the
/// control register selects.
pub open spec fn window_picture(video: &Video) -> Seq<Color> {
    map_picture(
        video,
        if crate::util::bits::bit_of(video.control.register, 6) {
            video.vram.maps().1
        } else {
            video.vram.maps().0
        },
    )
}

/// The part of the background that the screen shows: the screen is moved
/// over the background by the scroll, and the background is endless,
/// beginning again at its left where it ends on its right, and at its top
/// where it ends at its bottom.
pub open spec fn scrolled(background: Seq<Color>, scroll: (u8, u8)) -> Seq<Color> {
    Seq::new(
        SCREEN_PIXELS as nat,
        |i: int| background[((scroll.1 + i / 160) % 256) * 256 + (scroll.0 + i % 160) % 256],
    )
}

/// The screen with the window laid over it: the window's top left corner
/// is at column `window.0 - 7`, or 0 if that is less, and row `window.1`,
/// and the window covers all that is to the right of and below that
/// corner.
pub open spec fn overlaid(screen: Seq<Color>, window_picture: Seq<Color>, window: (u8, u8)) -> Seq<
    Color,
> {
    let left = lowered(window.0, 7);
    Seq::new(
        screen.len(),
        |i: int|
            if i / 160 >= window.1 && i % 160 >= left {
                window_picture[(i / 160 - window.1) * 256 + (i % 160 - left)]
            } else {
                screen[i]
            },
    )
}

/// The tiles of a sprite: the one that it names, and in tall mode the next
/// one below it.
pub open spec fn sprite_tiles(video: &Video, entry: OAMEntry) -> Seq<Tile> {
    if crate::util::bits::bit_of(video.control.register, 2) {
        seq![
            video.vram.tiles()[entry.tile_number as int],
            video.vram.tiles()[entry.tile_number + 1],
        ]
    } else {
        seq![video.vram.tiles()[entry.tile_number as int]]
    }
}

/// The screen after the first `count` sprites are drawn, white pixels of a
/// sprite being see-through. A sprite that is not visible is left out, and
/// so is one whose last row would reach past the end of the picture.
pub open spec fn sprites_drawn(screen: Seq<Color>, video: &Video, count: int) -> Seq<Color>
    decreases count,
{
    if count <= 0 {
        screen
    } else {
        let before = sprites_drawn(screen, video, count - 1);
        let entry = video.vram.sprites()[count - 1];
        let shape = sprite_shape(sprite_tiles(video, entry), entry);
        if entry.shown() && shape.fits(SCREEN_SIZE, SCREEN_PIXELS as int) {
            shape.drawn(before, SCREEN_SIZE, true)
        } else {
            before
        }
    }
}

/// The screen with the sprites drawn on it, if sprites are shown at all.
pub open spec fn with_sprites(screen: Seq<Color>, video: &Video) -> Seq<Color> {
    if crate::util::bits::bit_of(video.control.register, 1) {
        sprites_drawn(screen, video, video.vram.sprites().len() as int)
    } else {
        screen
    }
}

/// The picture on the screen. With the screen off it is blank. Else the
/// background and, if it is shown, the window are there if bit 0 of the
/// control register says so, and the sprites are drawn over them.
pub open spec fn screen_picture(video: &Video) -> Seq<Color> {
    let control = video.control.register;
    if !crate::util::bits::bit_of(control, 7) {
        blank(SCREEN_PIXELS as int)
    } else {
        let behind = if crate::util::bits::bit_of(control, 0) {
            let background = scrolled(background_picture(video), video.scroll);
            if crate::util::bits::bit_of(control, 5) {
                overlaid(background, window_picture(video), video.window)
            } else {
                background
            }
        } else {
            blank(SCREEN_PIXELS as int)
        };
        with_sprites(behind, video)
    }
}

/// The bytes of the first `count` pixels of a picture in a format, pixel
/// after pixel.
pub open spec fn picture_bytes(picture: Seq<Color>, format: ColorFormat, count: int) -> Seq<u8>
    decreases count,
{
    if count <= 0 {
        Seq::empty()
    } else {
        picture_bytes(picture, format, count - 1) + picture[count - 1].formatted(format)
    }
}

/// A tile at its place in the background fits the background.
proof fn lemma_tile_fits(tile: Tile, index: int)
    requires
        0 <= index < 1024,
    ensures
        tile_shape(tile, (8 * (index % 32)) as usize, (8 * (index / 32)) as usize).fits(
            BACKGROUND_SIZE,
            BACKGROUND_PIXELS as int,
        ),
{
    let shape = tile_shape(tile, (8 * (index % 32)) as usize, (8 * (index / 32)) as usize);
    assert forall|row: int| #[trigger] shape.row_shown(row, 256) implies (row + 1) * shape.width
        <= shape.data.len() && shape.row_start(row, 256) + shape.width <= 65536 by {
        assert(0 <= row < 8);
        assert(shape.row_start(row, 256) == (row + 8 * (index / 32)) * 256 + 8 * (index % 32));
    }
}

/// A sprite fits the screen unless it reaches the last row of the screen
/// and, in that row, past the end of the picture.
proof fn lemma_sprite_fits(tiles: Seq<Tile>, attributes: OAMEntry)
    requires
        attributes.shown(),
        tiles.len() == 1 || tiles.len() == 2,
    ensures
        sprite_shape(tiles, attributes).fits(SCREEN_SIZE, SCREEN_PIXELS as int) <==> !(lowered(
            attributes.position.1,
            16,
        ) + tiles.len() * 8 >= 144 && lowered(attributes.position.0, 8) > 152),
{
    let shape = sprite_shape(tiles, attributes);
    let x_flipped = crate::util::bits::bit_of(attributes.flags, 5);
    let y_flipped = crate::util::bits::bit_of(attributes.flags, 6);
    reveal_with_fuel(stacked, 3);
    assert(shape.data.len() == tiles.len() * 64);
    assert(shape.width == 8 && shape.height == tiles.len() * 8 && shape.x <= 159 && shape.y
        <= 143);
    if shape.y + shape.height >= 144 && shape.x > 152 {
        let row = 143 - shape.y;
        assert(shape.row_shown(row, 144));
        assert(shape.row_start(row, 160) == 143 * 160 + shape.x);
    } else {
        assert forall|row: int| #[trigger] shape.row_shown(row, 144) implies (row + 1)
            * shape.width <= shape.data.len() && shape.row_start(row, 160) + shape.width
            <= 23040 by {
            assert(shape.row_start(row, 160) == (row + shape.y) * 160 + shape.x);
            assert(0 <= row < tiles.len() * 8 && row + shape.y <= 143);
            if row + shape.y == 143 {
                assert(shape.x <= 152);
            }
        }
    }
}

impl Screen {
    /// The picture on the screen, three bytes to the pixel.
    pub fn draw(video: &Video) -> (r: Vec<u8>)
        ensures
            r@ == picture_bytes(screen_picture(video), ColorFormat::RGB, SCREEN_PIXELS as int),
    {
        Self::draw_with_options(video, ColorFormat::RGB)
    }

    /// The picture on the screen in a format.
    pub fn draw_with_options(video: &Video, format: ColorFormat) -> (r: Vec<u8>)
        ensures
            r@ == picture_bytes(screen_picture(video), format, SCREEN_PIXELS as int),
    {
        let mut buf: Vec<Color> = Vec::new();
        let mut i: usize = 0;
        while i < SCREEN_PIXELS
            invariant
                i <= SCREEN_PIXELS,
                buf@ == blank(i as int),
            decreases SCREEN_PIXELS - i,
        {
            buf.push(Color::White);
            i = i + 1;
        }

        if video.control.lcd_enabled() {
            if video.control.bg_window_enabled() {
                Self::draw_background_to_buffer(&mut buf, video);

                if video.control.window_enabled() {
                    Self::draw_window_to_buffer(&mut buf, video);
                }
            }
            Self::draw_sprites_to_buffer(&mut buf, video);
        }
        assert(buf@ == screen_picture(video));

        let mut bytes: Vec<u8> = Vec::new();
        let mut i: usize = 0;
        while i < buf.len()
            invariant
                i <= buf@.len(),
                buf@.len() == SCREEN_PIXELS,
                buf@ == screen_picture(video),
                bytes@ == picture_bytes(buf@, format, i as int),
            decreases buf.len() - i,
        {
            let mut color: Vec<u8> = buf[i].format(format);
            bytes.append(&mut color);
            i = i + 1;
        }
        bytes
    }

    /// Draws the sprites over what is in `buffer`.
    pub fn draw_sprites_to_buffer(buffer: &mut Vec<Color>, video: &Video)
        requires
            old(buffer)@.len() == SCREEN_PIXELS,
        ensures
            final(buffer)@ == with_sprites(old(buffer)@, video),
            final(buffer)@.len() == SCREEN_PIXELS,
    {
        let oam_entries = video.vram.oam().entries();
        let tile_data = video.vram.tile_data();
        let tall_sprites: bool = video.control.obj_big_size();

        if video.control.obj_enabled() {
            let mut i: usize = 0;
            while i < oam_entries.len()
                invariant
                    i <= oam_entries@.len(),
                    oam_entries@ == video.vram.sprites(),
                    tile_data@ == video.vram.tiles(),
                    tall_sprites == crate::util::bits::bit_of(video.control.register, 2),
                    buffer@.len() == SCREEN_PIXELS,
                    buffer@ == sprites_drawn(old(buffer)@, video, i as int),
                decreases oam_entries.len() - i,
            {
                let entry: OAMEntry = oam_entries[i];
                if entry.visible() {
                    let mut tiles: Vec<Tile> = Vec::new();
                    tiles.push(tile_data[entry.tile_number as usize]);
                    if tall_sprites {
                        tiles.push(tile_data[entry.tile_number as usize + 1]);
                    }
                    assert(tiles@ =~= sprite_tiles(video, entry));
                    let sprite = Sprite { tiles, attributes: entry };
                    let entity = Entity::from_sprite(&sprite);
                    proof {
                        lemma_sprite_fits(sprite.tiles@, entry);
                    }
                    if !(entity.y + entity.height >= 144 && entity.x > 152) {
                        drawer::draw_entity_with_transparency(entity, SCREEN_SIZE, buffer, true);
                    }
                }
                i = i + 1;
            }
        }
    }

    /// Fills `buffer` with the part of the background that the screen
    /// shows.
    pub fn draw_background_to_buffer(buffer: &mut Vec<Color>, video: &Video)
        requires
            old(buffer)@.len() == SCREEN_PIXELS,
        ensures
            final(buffer)@ == scrolled(background_picture(video), video.scroll),
            final(buffer)@.len() == SCREEN_PIXELS,
    {
        let (scx, scy) = video.scroll;
        let background_buf = Self::background(video);
        let mut y: usize = 0;
        while y < 144
            invariant
                y <= 144,
                buffer@.len() == SCREEN_PIXELS,
                background_buf@ == background_picture(video),
                background_buf@.len() == BACKGROUND_PIXELS,
                (scx, scy) == video.scroll,
                forall|i: int|
                    0 <= i < y * 160 ==> buffer@[i] == scrolled(
                        background_picture(video),
                        video.scroll,
                    )[i],
            decreases 144 - y,
        {
            let background_y: usize = wrap_value(scy as usize + y, 256);
            let mut x: usize = 0;
            while x < 160
                invariant
                    y < 144,
                    x <= 160,
                    background_y == (scy + y) % 256,
                    buffer@.len() == SCREEN_PIXELS,
                    background_buf@ == background_picture(video),
                    background_buf@.len() == BACKGROUND_PIXELS,
                    (scx, scy) == video.scroll,
                    forall|i: int|
                        0 <= i < y * 160 + x ==> buffer@[i] == scrolled(
                            background_picture(video),
                            video.scroll,
                        )[i],
                decreases 160 - x,
            {
                let background_x: usize = wrap_value(scx as usize + x, 256);
                let idx: usize = y * 160 + x;
                let background_idx: usize = background_y * 256 + background_x;
                buffer.set(idx, background_buf[background_idx]);
                x = x + 1;
            }
            y = y + 1;
        }
        assert(buffer@ =~= scrolled(background_picture(video), video.scroll));
    }

    /// The picture of the background, 256 by 256 pixels.
    pub fn background(video: &Video) -> (r: Vec<Color>)
        ensures
            r@ == background_picture(video),
            r@.len() == BACKGROUND_PIXELS,
    {
        let background_tile_map = if video.control.bg_map() == 0 {
            &video.vram.background_tile_maps().0
        } else {
            &video.vram.background_tile_maps().1
        };

        Self::background_tile_map(video, background_tile_map)
    }

    /// The picture that a tile map makes, 256 by 256 pixels.
    pub fn background_tile_map(video: &Video, background_tile_map: &BackgroundTileMap) -> (r: Vec<
        Color,
    >)
        ensures
            r@ == map_picture(video, *background_tile_map),
            r@.len() == BACKGROUND_PIXELS,
    {
        let tile_data = video.vram.tile_data();
        let mut background_buf: Vec<Color> = Vec::new();
        let mut i: usize = 0;
        while i < BACKGROUND_PIXELS
            invariant
                i <= BACKGROUND_PIXELS,
                background_buf@ == blank(i as int),
            decreases BACKGROUND_PIXELS - i,
        {
            background_buf.push(Color::White);
            i = i + 1;
        }
        let tiles = background_tile_map.adjusted_tiles(video.control.bg_tile_data_addressing());
        assert(tiles@ =~= adjusted_map(
            *background_tile_map,
            if crate::util::bits::bit_of(video.control.register, 4) {
                TileDataAddressing::Mode8000
            } else {
                TileDataAddressing::Mode8800
            },
        ));
        let mut index: usize = 0;
        while index < tiles.len()
            invariant
                index <= 1024,
                tiles@.len() == 1024,
                tile_data@ == video.vram.tiles(),
                forall|a: int| 0 <= a < 1024 ==> tiles@[a] < 384,
                background_buf@.len() == BACKGROUND_PIXELS,
                background_buf@ == map_drawn(tile_data@, tiles@, index as int),
            decreases tiles.len() - index,
        {
            let tile = &tile_data[tiles[index] as usize];
            let relative_y: usize = (index - index % 32) / 32;
            let relative_x: usize = index - relative_y * 32;
            let (x, y) = (8 * relative_x, 8 * relative_y);
            let entity = Entity::from_tile(tile, x, y);
            proof {
                lemma_tile_fits(*tile, index as int);
            }
            drawer::draw_entity(entity, BACKGROUND_SIZE, &mut background_buf);
            index = index + 1;
        }
        background_buf
    }

    /// Lays the window over what is in `buffer`.
    pub fn draw_window_to_buffer(buffer: &mut Vec<Color>, video: &Video)
        requires
            old(buffer)@.len() == SCREEN_PIXELS,
        ensures
            final(buffer)@ == overlaid(old(buffer)@, window_picture(video), video.window),
            final(buffer)@.len() == SCREEN_PIXELS,
    {
        let (window_x, window_y) = video.window;
        let window_buf = Self::window(video);
        let window_x: u8 = window_x.saturating_sub(7);
        let ghost target = overlaid(old(buffer)@, window_picture(video), video.window);
        let mut y: usize = 0;
        while y < 256 && y + (window_y as usize) < 144
            invariant
                y <= 256,
                buffer@.len() == SCREEN_PIXELS,
                old(buffer)@.len() == SCREEN_PIXELS,
                window_buf@ == window_picture(video),
                window_buf@.len() == BACKGROUND_PIXELS,
                window_y == video.window.1,
                window_x == lowered(video.window.0, 7),
                target == overlaid(old(buffer)@, window_picture(video), video.window),
                forall|i: int|
                    0 <= i < SCREEN_PIXELS ==> buffer@[i] == if i / 160 < window_y + y {
                        target[i]
                    } else {
                        old(buffer)@[i]
                    },
            decreases 256 - y,
        {
            let absolute_y: usize = y + window_y as usize;
            let mut x: usize = 0;
            assert forall|i: int| 0 <= i < SCREEN_PIXELS && i / 160 == absolute_y && i % 160
                < window_x implies target[i] == old(buffer)@[i] by {}
            while x < 256 && x + (window_x as usize) < 160
                invariant
                    y < 256,
                    x <= 256,
                    absolute_y == y + window_y,
                    absolute_y < 144,
                    buffer@.len() == SCREEN_PIXELS,
                    old(buffer)@.len() == SCREEN_PIXELS,
                    window_buf@ == window_picture(video),
                    window_buf@.len() == BACKGROUND_PIXELS,
                    window_y == video.window.1,
                    window_x == lowered(video.window.0, 7),
                    target == overlaid(old(buffer)@, window_picture(video), video.window),
                    forall|i: int|
                        0 <= i < SCREEN_PIXELS ==> buffer@[i] == if i / 160 < absolute_y || (i
                            / 160 == absolute_y && i % 160 < window_x + x) {
                            target[i]
                        } else {
                            old(buffer)@[i]
                        },
                decreases 256 - x,
            {
                let absolute_x: usize = x + window_x as usize;
                let window_idx: usize = y * 256 + x;
                let buffer_idx: usize = absolute_y * 160 + absolute_x;
                assert(buffer_idx / 160 == absolute_y && buffer_idx % 160 == absolute_x);
                assert(target[buffer_idx as int] == window_buf@[window_idx as int]);
                buffer.set(buffer_idx, window_buf[window_idx]);
                x = x + 1;
            }
            y = y + 1;
        }
        assert(buffer@ =~= target);
    }

    /// The picture of the window, 256 by 256 pixels.
    pub fn window(video: &Video) -> (r: Vec<Color>)
        ensures
            r@ == window_picture(video),
            r@.len() == BACKGROUND_PIXELS,
    {
        let window_tile_map = if video.control.window_bg_map() == 0 {
            &video.vram.background_tile_maps().0
        } else {
            &video.vram.background_tile_maps().1
        };

        Self::background_tile_map(video, window_tile_map)
    }
}

} // verus!
