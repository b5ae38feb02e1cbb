use std::rc::Rc;

use platformer::tiled;
use platformer::{Camera, Direction, Game, Player, Point, Rect, TileMap};

const D: usize = 8;

fn player_at(x: i64, y: i64) -> Player<u32> {
    Player::new(
        Point { x, y },
        Rect::new(10, 0, 32, 60),
        Rc::new(1),
        Some(Rect::new(0, 0, 55, 65)),
        Direction::Right,
        vec![0; D],
        vec![30; D],
        vec![1; D],
        vec![Point::origin(); D],
        true,
    )
}

fn map_of_pixels(w: u32, h: u32) -> TileMap<u32> {
    let t = tiled::TiledMap {
        layers: Vec::new(),
        width: w / 100,
        height: h / 100,
        tilesets: Vec::new(),
        tilewidth: 100,
        tileheight: 100,
    };
    TileMap::new_from_tiled_map(&t)
}

fn game(px: i64, py: i64, cam: Point) -> Game<u32> {
    let camera = Camera::new(cam, 200, 200, Rect::new(50, 50, 100, 100));
    let mut g = Game::new(false, None, camera, player_at(px, py));
    g.set_map(map_of_pixels(1000, 1000));
    g
}

#[test]
fn camera_clamped_to_map() {
    let extremes = [
        -1_000_000_000_000i64,
        -1_000_000,
        -500,
        -1,
        0,
        1,
        400,
        799,
        800,
        801,
        1000,
        5000,
        1_000_000_000_000,
    ];
    for &px in &extremes {
        for &py in &extremes {
            for &start in &[Point { x: 0, y: 0 }, Point { x: 800, y: 800 }, Point { x: -300, y: 9000 }] {
                let mut g = game(px, py, start);
                g.update_camera();
                assert!(0 <= g.camera.pos.x && g.camera.pos.x <= 800, "x {} for {}", g.camera.pos.x, px);
                assert!(0 <= g.camera.pos.y && g.camera.pos.y <= 800, "y {} for {}", g.camera.pos.y, py);
            }
        }
    }
}

#[test]
fn camera_follows_by_overflow() {
    // player box spans x in [410, 442], y in [300, 360]; dead zone spans
    // [cam + 50, cam + 150]
    let mut g = game(400, 300, Point { x: 250, y: 250 });
    g.update_camera();
    assert_eq!(g.camera.pos, Point { x: 292, y: 250 });
    let mut g = game(400, 300, Point { x: 400, y: 140 });
    g.update_camera();
    assert_eq!(g.camera.pos, Point { x: 360, y: 210 });
}

#[test]
fn camera_still_inside_dead_zone() {
    let mut g = game(400, 300, Point { x: 330, y: 230 });
    g.update_camera();
    assert_eq!(g.camera.pos, Point { x: 330, y: 230 });
}

#[test]
fn player_kept_on_active_map() {
    let mut g = game(5000, -20, Point { x: 0, y: 0 });
    g.keep_player_on_map();
    assert_eq!(g.player.me.en.pos, Point { x: 958, y: 0 });
    let camera = Camera::new(Point::origin(), 200, 200, Rect::new(50, 50, 100, 100));
    let mut g: Game<u32> = Game::new(true, None, camera, player_at(5000, -20));
    g.keep_player_on_map();
    assert_eq!(g.player.me.en.pos, Point { x: 5000, y: -20 });
    assert!(g.running && g.debug);
}
