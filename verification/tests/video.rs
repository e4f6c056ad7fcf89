use rustyboy::util::drawer::{draw_entity, draw_entity_with_transparency, Entity};
use rustyboy::video::color::Color;
use rustyboy::video::control_register::TileDataAddressing;
use rustyboy::video::memory::background_tile_map::BackgroundTileMap;

fn entity(width: usize, height: usize, x: usize, y: usize, data: Vec<Color>) -> Entity {
    Entity { width, height, x, y, data }
}

#[test]
fn an_entity_is_drawn_at_its_place() {
    let mut buf = vec![Color::White; 4 * 3];
    let data = vec![Color::Black, Color::DarkGray, Color::LightGray, Color::White];
    draw_entity(entity(2, 2, 1, 1, data), (4, 3), &mut buf);
    let w = Color::White;
    assert_eq!(
        buf,
        vec![w, w, w, w, w, Color::Black, Color::DarkGray, w, w, Color::LightGray, w, w]
    );
}

#[test]
fn white_is_see_through_with_transparency() {
    let mut buf = vec![Color::Black; 4];
    let data = vec![Color::White, Color::LightGray, Color::DarkGray, Color::White];
    draw_entity_with_transparency(entity(2, 2, 0, 0, data.clone()), (2, 2), &mut buf, true);
    assert_eq!(buf, vec![Color::Black, Color::LightGray, Color::DarkGray, Color::Black]);
    draw_entity_with_transparency(entity(2, 2, 0, 0, data.clone()), (2, 2), &mut buf, false);
    assert_eq!(buf, data);
}

#[test]
fn rows_below_the_picture_are_left_out() {
    let mut buf = vec![Color::White; 2 * 2];
    let data = vec![Color::Black; 2 * 3];
    draw_entity(entity(2, 3, 0, 1, data), (2, 2), &mut buf);
    assert_eq!(buf, vec![Color::White, Color::White, Color::Black, Color::Black]);
}

#[test]
fn a_row_that_reaches_past_the_edge_goes_on_in_the_next() {
    let mut buf = vec![Color::White; 3 * 3];
    let data = vec![Color::Black, Color::DarkGray];
    draw_entity(entity(2, 1, 2, 0, data), (3, 3), &mut buf);
    assert_eq!(buf[2], Color::Black);
    assert_eq!(buf[3], Color::DarkGray);
    assert_eq!(buf[4], Color::White);
}

#[test]
fn an_empty_entity_draws_nothing() {
    let mut buf = vec![Color::LightGray; 4];
    draw_entity(entity(0, 5, 0, 0, vec![]), (2, 2), &mut buf);
    draw_entity(entity(5, 0, 0, 0, vec![]), (2, 2), &mut buf);
    assert_eq!(buf, vec![Color::LightGray; 4]);
}

#[test]
fn a_new_tile_map_is_all_zero() {
    let map = BackgroundTileMap::new();
    for address in [0u16, 1, 31, 32, 500, 1023] {
        assert_eq!(map.tile_idx_at(address), 0);
    }
    assert_eq!(map.adjusted_tiles(TileDataAddressing::Mode8000), vec![0u16; 1024]);
    assert_eq!(map.adjusted_tiles(TileDataAddressing::Mode8800), vec![256u16; 1024]);
}

#[test]
fn tiles_are_addressed_row_by_row() {
    let mut map = BackgroundTileMap::new();
    map.set_tile_idx_at(0, 1);
    map.set_tile_idx_at(31, 2);
    map.set_tile_idx_at(32, 127);
    map.set_tile_idx_at(1023, 128);
    assert_eq!(map.tile_info_at(0), (0, 0));
    assert_eq!(map.tile_info_at(31), (0, 31));
    assert_eq!(map.tile_info_at(32), (1, 0));
    assert_eq!(map.tile_info_at(1023), (31, 31));
    assert_eq!(map.tile_idx_at(31), 2);
    assert_eq!(map.tile_idx_at(32), 127);
    assert_eq!(map.tile_idx_at(33), 0);
    let plain = map.adjusted_tiles(TileDataAddressing::Mode8000);
    assert_eq!((plain[0], plain[31], plain[32], plain[1023]), (1, 2, 127, 128));
    let signed = map.adjusted_tiles(TileDataAddressing::Mode8800);
    assert_eq!((signed[0], signed[31], signed[32], signed[1023]), (257, 258, 383, 128));
    assert_eq!(signed[1], 256);
}
