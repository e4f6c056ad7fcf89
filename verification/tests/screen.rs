use rustyboy::util::drawer::Entity;
use rustyboy::util::wrap_value;
use rustyboy::video::color::{Color, ColorFormat};
use rustyboy::video::control_register::{ControlRegister, TileDataAddressing};
use rustyboy::video::memory::sprite_attribute_table::OAMEntry;
use rustyboy::video::memory::VideoMemory;
use rustyboy::video::screen::{Screen, Sprite, BACKGROUND_SIZE, SCREEN_SIZE};
use rustyboy::video::tile::Tile;
use rustyboy::video::Video;

fn solid(color: u8) -> Tile {
    let low = if color & 1 != 0 { 0xFF } else { 0x00 };
    let high = if color & 2 != 0 { 0xFF } else { 0x00 };
    let mut data = [0u8; 16];
    for row in 0..8 {
        data[2 * row] = low;
        data[2 * row + 1] = high;
    }
    Tile { data }
}

fn video(control: u8) -> Video {
    Video {
        control: ControlRegister { register: control },
        vram: VideoMemory::new(),
        scroll: (0, 0),
        window: (0, 0),
    }
}

fn pixel(bytes: &[u8], x: usize, y: usize) -> u8 {
    bytes[(y * 160 + x) * 3]
}

#[test]
fn colours_in_bytes() {
    assert_eq!(Color::White.format(ColorFormat::RGB), vec![255, 255, 255]);
    assert_eq!(Color::LightGray.format(ColorFormat::RGB), vec![170, 170, 170]);
    assert_eq!(Color::DarkGray.format(ColorFormat::RGBA), vec![85, 85, 85, 255]);
    assert_eq!(Color::Black.format(ColorFormat::RGBA), vec![0, 0, 0, 255]);
    assert_eq!(Color::from_index(0), Color::White);
    assert_eq!(Color::from_index(1), Color::LightGray);
    assert_eq!(Color::from_index(2), Color::DarkGray);
    assert_eq!(Color::from_index(3), Color::Black);
    assert_eq!(Color::from_index(7), Color::Black);
}

#[test]
fn tile_pixels_take_one_bit_from_each_byte() {
    let mut data = [0u8; 16];
    data[0] = 0b1000_0001;
    data[1] = 0b1100_0000;
    data[14] = 0b0000_0001;
    let tile = Tile { data };
    let pixels = tile.colored();
    assert_eq!(pixels.len(), 64);
    assert_eq!(pixels[0], Color::Black);
    assert_eq!(pixels[1], Color::DarkGray);
    assert_eq!(pixels[2], Color::White);
    assert_eq!(pixels[7], Color::LightGray);
    assert_eq!(pixels[7 * 8 + 7], Color::LightGray);
    let flipped = tile.colored_with_options(true, false);
    assert_eq!(flipped[7], Color::Black);
    assert_eq!(flipped[0], Color::LightGray);
    let flipped = tile.colored_with_options(false, true);
    assert_eq!(flipped[7 * 8], Color::Black);
    assert_eq!(flipped[7], Color::LightGray);
    let flipped = tile.colored_with_options(true, true);
    assert_eq!(flipped[63], Color::Black);
    assert_eq!(flipped[0], Color::LightGray);
    assert_eq!(Tile::new().colored(), vec![Color::White; 64]);
}

#[test]
fn control_register_switches() {
    let control = ControlRegister { register: 0b1010_1010 };
    assert!(control.lcd_enabled());
    assert_eq!(control.window_bg_map(), 0);
    assert!(control.window_enabled());
    assert_eq!(control.bg_tile_data_addressing(), TileDataAddressing::Mode8800);
    assert_eq!(control.bg_map(), 1);
    assert!(!control.obj_big_size());
    assert!(control.obj_enabled());
    assert!(!control.bg_window_enabled());
    let control = ControlRegister { register: 0b0101_0101 };
    assert!(!control.lcd_enabled());
    assert_eq!(control.window_bg_map(), 1);
    assert_eq!(control.bg_tile_data_addressing(), TileDataAddressing::Mode8000);
    assert!(control.obj_big_size());
    assert!(control.bg_window_enabled());
}

#[test]
fn sprite_attributes() {
    let entry = OAMEntry { position: (8, 16), tile_number: 3, flags: 0b1010_0000 };
    assert!(entry.visible());
    assert!(entry.behind_bg());
    assert!(!entry.y_flipped());
    assert!(entry.x_flipped());
    assert_eq!(entry.obj_palette_number(), 0);
    let entry = OAMEntry { position: (0, 16), tile_number: 3, flags: 0b0101_0000 };
    assert!(!entry.visible());
    assert!(entry.y_flipped());
    assert_eq!(entry.obj_palette_number(), 1);
    assert!(!OAMEntry { position: (168, 16), tile_number: 0, flags: 0 }.visible());
    assert!(!OAMEntry { position: (8, 160), tile_number: 0, flags: 0 }.visible());
    assert!(OAMEntry { position: (167, 159), tile_number: 0, flags: 0 }.visible());
    let sprite = Sprite { tiles: vec![Tile::new()], attributes: entry };
    assert_eq!(sprite.x(), 0);
    assert_eq!(sprite.y(), 16);
    assert!(!sprite.x_flipped());
    assert!(sprite.y_flipped());
}

#[test]
fn entities_from_tiles_and_sprites() {
    let entity = Entity::from_tile(&solid(3), 16, 24);
    assert_eq!((entity.width, entity.height, entity.x, entity.y), (8, 8, 16, 24));
    assert_eq!(entity.data, vec![Color::Black; 64]);
    let sprite = Sprite {
        tiles: vec![solid(1), solid(2)],
        attributes: OAMEntry { position: (20, 10), tile_number: 0, flags: 0 },
    };
    let entity = Entity::from_sprite(&sprite);
    assert_eq!((entity.width, entity.height, entity.x, entity.y), (8, 16, 12, 0));
    assert_eq!(entity.data.len(), 128);
    assert_eq!(entity.data[0], Color::LightGray);
    assert_eq!(entity.data[64], Color::DarkGray);
}

#[test]
fn wrapping() {
    assert_eq!(wrap_value(255, 256), 255);
    assert_eq!(wrap_value(256, 256), 0);
    assert_eq!(wrap_value(300, 256), 44);
    assert_eq!(SCREEN_SIZE, (160, 144));
    assert_eq!(BACKGROUND_SIZE, (256, 256));
}

#[test]
fn a_screen_that_is_off_is_blank() {
    let mut video = video(0b0001_0011);
    video.vram.set_tile(0, solid(3));
    let bytes = Screen::draw(&video);
    assert_eq!(bytes, vec![255u8; 160 * 144 * 3]);
    assert_eq!(Screen::draw_with_options(&video, ColorFormat::RGBA).len(), 160 * 144 * 4);
}

#[test]
fn the_background_is_drawn_from_the_selected_map() {
    let mut video = video(0b1001_0001);
    video.vram.set_tile(1, solid(3));
    video.vram.set_tile_idx_at(false, 0, 1);
    video.vram.set_tile_idx_at(false, 33, 1);
    video.vram.set_tile_idx_at(true, 2, 1);
    let bytes = Screen::draw(&video);
    assert_eq!(pixel(&bytes, 0, 0), 0);
    assert_eq!(pixel(&bytes, 7, 7), 0);
    assert_eq!(pixel(&bytes, 8, 0), 255);
    assert_eq!(pixel(&bytes, 0, 8), 255);
    assert_eq!(pixel(&bytes, 8, 8), 0);
    assert_eq!(pixel(&bytes, 16, 0), 255);
    video.control.register = 0b1001_1001;
    let bytes = Screen::draw(&video);
    assert_eq!(pixel(&bytes, 0, 0), 255);
    assert_eq!(pixel(&bytes, 16, 0), 0);
    let background = Screen::background(&video);
    assert_eq!(background.len(), 256 * 256);
    assert_eq!(background[16], Color::Black);
    assert_eq!(background[15], Color::White);
}

#[test]
fn the_background_scrolls_and_wraps() {
    let mut video = video(0b1001_0001);
    video.vram.set_tile(1, solid(2));
    video.vram.set_tile_idx_at(false, 0, 1);
    video.scroll = (4, 2);
    let bytes = Screen::draw(&video);
    assert_eq!(pixel(&bytes, 0, 0), 85);
    assert_eq!(pixel(&bytes, 3, 5), 85);
    assert_eq!(pixel(&bytes, 4, 0), 255);
    assert_eq!(pixel(&bytes, 0, 6), 255);
    video.scroll = (250, 250);
    let bytes = Screen::draw(&video);
    assert_eq!(pixel(&bytes, 5, 5), 255);
    assert_eq!(pixel(&bytes, 6, 6), 85);
    assert_eq!(pixel(&bytes, 13, 13), 85);
    assert_eq!(pixel(&bytes, 14, 14), 255);
}

#[test]
fn signed_addressing_names_the_upper_tiles() {
    let mut video = video(0b1000_0001);
    video.vram.set_tile(256, solid(1));
    video.vram.set_tile(0, solid(3));
    let bytes = Screen::draw(&video);
    assert_eq!(pixel(&bytes, 0, 0), 170);
    video.vram.set_tile_idx_at(false, 0, 128);
    video.vram.set_tile(128, solid(2));
    let bytes = Screen::draw(&video);
    assert_eq!(pixel(&bytes, 0, 0), 85);
}

#[test]
fn the_window_lies_over_the_background() {
    let mut video = video(0b1111_0001);
    video.vram.set_tile(1, solid(3));
    video.vram.set_tile(2, solid(1));
    for address in 0..1024u16 {
        video.vram.set_tile_idx_at(true, address, 2);
    }
    video.vram.set_tile_idx_at(false, 0, 1);
    video.window = (7 + 100, 50);
    let bytes = Screen::draw(&video);
    assert_eq!(pixel(&bytes, 0, 0), 0);
    assert_eq!(pixel(&bytes, 99, 50), 255);
    assert_eq!(pixel(&bytes, 100, 49), 255);
    assert_eq!(pixel(&bytes, 100, 50), 170);
    assert_eq!(pixel(&bytes, 159, 143), 170);
    video.window = (3, 0);
    let bytes = Screen::draw(&video);
    assert_eq!(pixel(&bytes, 0, 0), 170);
    video.window = (7, 144);
    let bytes = Screen::draw(&video);
    assert_eq!(pixel(&bytes, 0, 143), 255);
    video.control.register = 0b1101_0001;
    video.window = (7, 0);
    let bytes = Screen::draw(&video);
    assert_eq!(pixel(&bytes, 100, 100), 255);
}

#[test]
fn sprites_are_drawn_over_the_background_with_white_see_through() {
    let mut video = video(0b1001_0011);
    video.vram.set_tile(0, solid(1));
    let mut data = [0u8; 16];
    data[0] = 0b1000_0000;
    data[1] = 0b1000_0000;
    video.vram.set_tile(5, Tile { data });
    video.vram.set_sprites(vec![
        OAMEntry { position: (8 + 10, 16 + 20), tile_number: 5, flags: 0 },
        OAMEntry { position: (0, 16), tile_number: 5, flags: 0 },
    ]);
    let bytes = Screen::draw(&video);
    assert_eq!(pixel(&bytes, 10, 20), 0);
    assert_eq!(pixel(&bytes, 11, 20), 170);
    assert_eq!(pixel(&bytes, 0, 0), 170);
    video.control.register = 0b1001_0001;
    let bytes = Screen::draw(&video);
    assert_eq!(pixel(&bytes, 10, 20), 170);
    video.control.register = 0b1001_0010;
    let bytes = Screen::draw(&video);
    assert_eq!(pixel(&bytes, 10, 20), 0);
    assert_eq!(pixel(&bytes, 11, 20), 255);
}

#[test]
fn tall_sprites_take_the_next_tile_too() {
    let mut video = video(0b1000_0110);
    video.vram.set_tile(4, solid(3));
    video.vram.set_tile(5, solid(2));
    video.vram.set_sprites(vec![OAMEntry { position: (8, 16), tile_number: 4, flags: 0 }]);
    let bytes = Screen::draw(&video);
    assert_eq!(pixel(&bytes, 0, 7), 0);
    assert_eq!(pixel(&bytes, 0, 8), 85);
    assert_eq!(pixel(&bytes, 0, 15), 85);
    assert_eq!(pixel(&bytes, 0, 16), 255);
}

#[test]
fn a_sprite_at_the_right_edge_goes_on_in_the_next_row() {
    let mut video = video(0b1000_0010);
    video.vram.set_tile(1, solid(3));
    video.vram.set_sprites(vec![OAMEntry { position: (8 + 156, 16), tile_number: 1, flags: 0 }]);
    let bytes = Screen::draw(&video);
    assert_eq!(pixel(&bytes, 159, 0), 0);
    assert_eq!(pixel(&bytes, 0, 1), 0);
    assert_eq!(pixel(&bytes, 3, 1), 0);
    assert_eq!(pixel(&bytes, 4, 1), 255);
}

#[test]
fn a_sprite_that_would_leave_the_picture_is_left_out() {
    let mut video = video(0b1000_0010);
    video.vram.set_tile(1, solid(3));
    video.vram.set_sprites(vec![
        OAMEntry { position: (8 + 156, 16 + 140), tile_number: 1, flags: 0 },
        OAMEntry { position: (8 + 152, 16 + 140), tile_number: 1, flags: 0 },
    ]);
    let bytes = Screen::draw(&video);
    assert_eq!(pixel(&bytes, 156, 140), 0);
    assert_eq!(pixel(&bytes, 152, 143), 0);
    assert_eq!(pixel(&bytes, 159, 143), 0);
    assert_eq!(pixel(&bytes, 151, 143), 255);
    assert_eq!(pixel(&bytes, 0, 141), 255);
}
