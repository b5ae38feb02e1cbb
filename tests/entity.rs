use std::rc::Rc;

use platformer::{next_frame_count, Animation, Camera, Direction, Entity, MoveableEntity, Player, Point, Rect};

const D: usize = 8;

fn tables(cycle: u8, frames: u8) -> (Vec<u8>, Vec<u8>, Vec<Point>, Vec<u8>) {
    (vec![cycle; D], vec![frames; D], vec![Point::origin(); D], vec![0; D])
}

fn player(d: Direction, cycle: u8, frames: u8, reverse: bool) -> Player<u32> {
    let (dtal, dtf, dto, dtp) = tables(cycle, frames);
    Player::new(
        Point { x: 250, y: 150 },
        Rect::new(10, 0, 32, 60),
        Rc::new(1),
        Some(Rect::new(0, 0, 55, 65)),
        d,
        dtp,
        dtal,
        dtf,
        dto,
        reverse,
    )
}

fn counters(p: &Player<u32>) -> (u8, u8) {
    let a = p.me.anim.as_ref().unwrap();
    (a.sc, a.ac)
}

#[test]
fn origin_is_zero() {
    assert_eq!(Point::origin(), Point { x: 0, y: 0 });
}

#[test]
fn direction_indices_are_dense() {
    let all = [
        Direction::Up,
        Direction::DoubleUp,
        Direction::Down,
        Direction::Left,
        Direction::StillLeft,
        Direction::Right,
        Direction::StillRight,
        Direction::Landed,
    ];
    for (k, d) in all.iter().enumerate() {
        assert_eq!(d.index(), k);
    }
}

#[test]
fn animation_starts_at_frame_one() {
    let (dtal, dtf, dto, dtp) = tables(30, 3);
    let a = Animation::new(dtal, dtf, dto, dtp, true);
    assert_eq!((a.sc, a.ac, a.reverse), (1, 0, true));
}

#[test]
fn table_validation() {
    let (dtal, dtf, dto, dtp) = tables(8, 4);
    assert!(Animation::tables_valid(&dtal, &dtf, &dto, &dtp));
    assert!(!Animation::tables_valid(&dtal[..7].to_vec(), &dtf, &dto, &dtp));
    assert!(!Animation::tables_valid(&dtal, &vec![0; D], &dto, &dtp));
    assert!(!Animation::tables_valid(&vec![3; D], &dtf, &dto, &dtp));
    let far = vec![Point { x: i64::MAX, y: 0 }; D];
    assert!(!Animation::tables_valid(&dtal, &dtf, &far, &dtp));
}

#[test]
fn change_dir_ignored_while_airborne() {
    let mut p = player(Direction::Right, 8, 4, false);
    p.me.dir = Direction::Up;
    p.me.l_dir = Direction::Right;
    p.me.change_dir(Direction::Left);
    assert_eq!(p.me.dir, Direction::Up);
    assert_eq!(p.me.l_dir, Direction::Right);
    p.me.dir = Direction::DoubleUp;
    p.me.change_dir(Direction::StillLeft);
    assert_eq!(p.me.dir, Direction::DoubleUp);
}

#[test]
fn landed_restores_last_direction() {
    let mut p = player(Direction::Right, 8, 4, false);
    p.me.dir = Direction::Up;
    p.me.l_dir = Direction::Right;
    p.me.change_dir(Direction::Landed);
    assert_eq!(p.me.dir, Direction::Right);
    assert_eq!(p.me.l_dir, Direction::Landed);
}

#[test]
fn change_dir_remembers_and_resets_on_rest() {
    let mut p = player(Direction::Right, 8, 4, false);
    p.me.anim.as_mut().unwrap().sc = 3;
    p.me.anim.as_mut().unwrap().ac = 5;
    p.me.change_dir(Direction::Left);
    assert_eq!((p.me.dir, p.me.l_dir), (Direction::Left, Direction::Right));
    assert_eq!(counters(&p), (3, 5));
    p.me.change_dir(Direction::StillLeft);
    assert_eq!((p.me.dir, p.me.l_dir), (Direction::StillLeft, Direction::Left));
    assert_eq!(counters(&p), (1, 0));
}

#[test]
fn animation_wraps_every_step() {
    let mut p = player(Direction::Right, 8, 4, false);
    let mut seen = Vec::new();
    for _ in 0..17 {
        p.me.update(false);
        seen.push(counters(&p));
    }
    let sc: Vec<u8> = seen.iter().map(|c| c.0).collect();
    let ac: Vec<u8> = seen.iter().map(|c| c.1).collect();
    assert_eq!(sc, vec![2, 2, 3, 3, 0, 0, 1, 1, 2, 2, 3, 3, 0, 0, 1, 1, 2]);
    assert_eq!(ac, vec![1, 2, 3, 4, 5, 6, 7, 8, 1, 2, 3, 4, 5, 6, 7, 8, 1]);
}

#[test]
fn update_brings_stopped_entity_to_rest() {
    let mut p = player(Direction::Left, 8, 4, false);
    p.me.update(false);
    assert_eq!(p.me.dir, Direction::Left);
    assert_eq!(counters(&p), (2, 1));
    p.me.update(true);
    assert_eq!((p.me.dir, p.me.l_dir), (Direction::StillLeft, Direction::Left));
    assert_eq!(counters(&p), (2, 1));
    p.me.update(true);
    assert_eq!(p.me.dir, Direction::StillLeft);
}

#[test]
fn update_without_draw_rect_keeps_counters() {
    let mut p = player(Direction::Right, 8, 4, false);
    p.me.en.draw_rect = None;
    p.me.update(false);
    assert_eq!(counters(&p), (1, 0));
    p.me.update(true);
    assert_eq!(p.me.dir, Direction::StillRight);
}

#[test]
fn draw_rect_follows_frame_and_row() {
    let (dtal, dtf, mut dto, mut dtp) = tables(8, 4);
    dto[5] = Point { x: 100, y: 7 };
    dtp[5] = 2;
    let mut me = MoveableEntity::new(
        Point::origin(),
        Rect::new(0, 0, 10, 10),
        Rc::new(0u32),
        Some(Rect::new(0, 0, 55, 65)),
        Direction::Right,
        Some(Animation::new(dtal, dtf, dto, dtp, false)),
    );
    me.refresh_draw_rect();
    assert_eq!(me.en.draw_rect, Some(Rect::new(155, 137, 55, 65)));
    me.anim.as_mut().unwrap().reverse = true;
    me.refresh_draw_rect();
    assert_eq!(me.en.draw_rect, Some(Rect::new(100 + 3 * 55, 137, 55, 65)));
}

#[test]
fn keep_on_screen_clamps_and_lands() {
    let mut p = player(Direction::Right, 8, 4, false);
    p.me.en.pos = Point { x: -50, y: 900 };
    assert!(p.jump());
    p.keep_on_screen(980, 700);
    assert_eq!(p.me.en.pos, Point { x: -10, y: 640 });
    assert_eq!((p.me.dir, p.me.l_dir), (Direction::Right, Direction::Landed));
    p.me.en.pos = Point { x: 2000, y: -5 };
    p.keep_on_screen(980, 700);
    assert_eq!(p.me.en.pos, Point { x: 938, y: 0 });
    assert_eq!(p.me.dir, Direction::Right);
}

#[test]
fn keep_on_screen_leaves_inside_alone() {
    let mut p = player(Direction::Right, 8, 4, false);
    p.keep_on_screen(980, 700);
    assert_eq!(p.me.en.pos, Point { x: 250, y: 150 });
    p.me.en.pos.y = 700;
    p.keep_on_screen(980, 700);
    assert_eq!(p.me.en.pos.y, 640);
    assert_eq!(p.me.dir, Direction::Right);
}

#[test]
fn jump_budget_is_two() {
    let mut p = player(Direction::StillRight, 8, 4, false);
    assert!(p.jump());
    assert_eq!((p.me.dir, p.me.l_dir), (Direction::Up, Direction::StillRight));
    assert!(p.jump());
    assert_eq!((p.me.dir, p.me.l_dir), (Direction::DoubleUp, Direction::StillRight));
    assert!(!p.jump());
    assert_eq!(p.me.dir, Direction::DoubleUp);
}

#[test]
fn steering_prefers_left() {
    let mut p = player(Direction::StillRight, 8, 4, false);
    assert_eq!(p.steer(true, true), -1);
    assert_eq!(p.me.dir, Direction::Left);
    assert_eq!(p.steer(false, true), 1);
    assert_eq!((p.me.dir, p.me.l_dir), (Direction::Right, Direction::Left));
    assert_eq!(p.steer(false, false), 0);
    assert_eq!(p.me.dir, Direction::Right);
}

#[test]
fn entity_rects_relative_to_camera() {
    let e = Entity::new(Point { x: 300, y: 120 }, Rect::new(10, 5, 32, 60), Rc::new(0u32), None);
    let cam = Camera::new(Point { x: 100, y: 20 }, 980, 700, Rect::new(100, 100, 780, 500));
    assert_eq!(e.screen_rect(&cam, 64, 48), Rect::new(200, 100, 64, 48));
    assert_eq!(e.debug_rect(&cam), Rect::new(210, 105, 32, 60));
    let e = Entity::new(Point { x: 0, y: 0 }, Rect::new(0, 0, 1, 1), Rc::new(0u32), Some(Rect::new(55, 0, 55, 65)));
    assert_eq!(e.screen_rect(&cam, 64, 48), Rect::new(-100, -20, 55, 65));
}

#[test]
fn frame_counter_wraps_past_fps() {
    assert_eq!(next_frame_count(0, 30), 1);
    assert_eq!(next_frame_count(29, 30), 30);
    assert_eq!(next_frame_count(30, 30), 0);
    assert_eq!(next_frame_count(255, 255), 0);
}
