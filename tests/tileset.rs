use std::rc::Rc;

use platformer::tiled;
use platformer::{Camera, Point, Rect, TileDraw, TileMap, Tileset};

fn tileset(tile_count: u32, margin: u32, spacing: u32) -> Tileset<u32> {
    let ts = tiled::Tileset {
        firstgid: 1,
        image: "tiles.png".to_string(),
        imagewidth: 160,
        imageheight: 160,
        tileheight: 16,
        tilewidth: 16,
        tilecount: tile_count,
        margin,
        spacing,
    };
    Tileset::new_from_tiled_tileset(Rc::new(7), 160, 160, &ts)
}

#[test]
fn tile_for_id_square_atlas() {
    let ts = tileset(100, 0, 0);
    assert_eq!(ts.side_len(), 10);
    assert_eq!(ts.tile_for_id(0), None);
    assert_eq!(ts.tile_for_id(1), Some(Rect::new(0, 0, 16, 16)));
    assert_eq!(ts.tile_for_id(11), Some(Rect::new(0, 16, 16, 16)));
    assert_eq!(ts.tile_for_id(12), Some(Rect::new(16, 16, 16, 16)));
    assert_eq!(ts.tile_for_id(100), Some(Rect::new(144, 144, 16, 16)));
}

#[test]
fn tile_for_id_margin_and_spacing() {
    let ts = tileset(100, 2, 1);
    assert_eq!(ts.tile_for_id(1), Some(Rect::new(2, 2, 16, 16)));
    assert_eq!(ts.tile_for_id(12), Some(Rect::new(19, 19, 16, 16)));
    assert_eq!(ts.tile_for_id(23), Some(Rect::new(36, 36, 16, 16)));
}

#[test]
fn side_len_is_floor_of_square_root() {
    assert_eq!(tileset(0, 0, 0).side_len(), 0);
    assert_eq!(tileset(1, 0, 0).side_len(), 1);
    assert_eq!(tileset(3, 0, 0).side_len(), 1);
    assert_eq!(tileset(99, 0, 0).side_len(), 9);
    assert_eq!(tileset(u32::MAX, 0, 0).side_len(), 65535);
}

#[test]
fn empty_atlas_still_resolves_empty_cells() {
    assert_eq!(tileset(0, 0, 0).tile_for_id(0), None);
}

fn tiled_map(width: u32, height: u32) -> tiled::TiledMap {
    tiled::TiledMap {
        layers: Vec::new(),
        width,
        height,
        tilesets: Vec::new(),
        tilewidth: 10,
        tileheight: 10,
    }
}

#[test]
fn map_from_tiled_is_empty_grid() {
    let m: TileMap<u32> = TileMap::new_from_tiled_map(&tiled_map(3, 2));
    assert_eq!((m.width, m.height, m.tile_width, m.tile_height), (3, 2, 10, 10));
    assert!(m.tiles.is_empty());
    assert_eq!(m.pixel_width(), 30);
    assert_eq!(m.pixel_height(), 20);
}

#[test]
fn grid_filled_from_layer_data() {
    let ts = tileset(100, 0, 0);
    let mut m: TileMap<u32> = TileMap::new_from_tiled_map(&tiled_map(3, 2));
    m.insert_data_using_tilset(&[1, 0, 12, 0, 2, 11, 99], &ts);
    assert_eq!(m.tiles.len(), 2);
    assert!(m.tiles.iter().all(|row| row.len() == 3));
    assert_eq!(m.tiles[0][0].clip_rect, Some(Rect::new(0, 0, 16, 16)));
    assert_eq!(m.tiles[0][1].clip_rect, None);
    assert_eq!(m.tiles[0][2].clip_rect, Some(Rect::new(16, 16, 16, 16)));
    assert_eq!(m.tiles[1][0].clip_rect, None);
    assert_eq!(m.tiles[1][1].clip_rect, Some(Rect::new(16, 0, 16, 16)));
    assert_eq!(m.tiles[1][2].clip_rect, Some(Rect::new(0, 16, 16, 16)));
    assert!(Rc::ptr_eq(&m.tiles[1][2].texture, &ts.texture));
}

fn full_map(width: u32, height: u32) -> TileMap<u32> {
    let ts = tileset(100, 0, 0);
    let mut m: TileMap<u32> = TileMap::new_from_tiled_map(&tiled_map(width, height));
    let data = vec![1u8; (width * height) as usize];
    m.insert_data_using_tilset(&data, &ts);
    m
}

#[test]
fn culling_keeps_overlapping_tiles_once() {
    let m = full_map(4, 4);
    let cam = Camera::new(Point { x: 15, y: 0 }, 10, 40, Rect::new(0, 0, 10, 40));
    let r = m.visible_tiles(&cam);
    let cells: Vec<(usize, usize)> = r.iter().map(|d| (d.row, d.col)).collect();
    assert_eq!(
        cells,
        vec![(0, 1), (0, 2), (1, 1), (1, 2), (2, 1), (2, 2), (3, 1), (3, 2)]
    );
    assert_eq!(
        r[0],
        TileDraw {
            row: 0,
            col: 1,
            clip: Rect::new(0, 0, 16, 16),
            dest: Rect::new(-5, 0, 10, 10),
        }
    );
    assert_eq!(r[7].dest, Rect::new(5, 30, 10, 10));
}

#[test]
fn culling_drops_tiles_outside_either_axis() {
    let m = full_map(10, 10);
    let cam = Camera::new(Point { x: 35, y: 52 }, 20, 10, Rect::new(0, 0, 20, 10));
    let r = m.visible_tiles(&cam);
    for d in &r {
        let (x, y) = (d.col as i64 * 10, d.row as i64 * 10);
        assert!(x + 10 >= 35 && x <= 55);
        assert!(y + 10 >= 52 && y <= 62);
        assert_eq!(d.dest, Rect::new(x - 35, y - 52, 10, 10));
    }
    let cells: Vec<(usize, usize)> = r.iter().map(|d| (d.row, d.col)).collect();
    assert_eq!(
        cells,
        vec![(5, 3), (5, 4), (5, 5), (6, 3), (6, 4), (6, 5)]
    );
}

#[test]
fn culling_skips_empty_cells() {
    let ts = tileset(100, 0, 0);
    let mut m: TileMap<u32> = TileMap::new_from_tiled_map(&tiled_map(2, 1));
    m.insert_data_using_tilset(&[0, 5], &ts);
    let cam = Camera::new(Point { x: 0, y: 0 }, 100, 100, Rect::new(0, 0, 100, 100));
    let r = m.visible_tiles(&cam);
    assert_eq!(r.len(), 1);
    assert_eq!((r[0].row, r[0].col), (0, 1));
    assert_eq!(r[0].clip, Rect::new(64, 0, 16, 16));
}

#[test]
fn culling_of_far_camera_draws_nothing() {
    let m = full_map(3, 3);
    let cam = Camera::new(Point { x: 1000, y: 0 }, 50, 50, Rect::new(0, 0, 50, 50));
    assert!(m.visible_tiles(&cam).is_empty());
}
