//! Game state: the player, the camera and the active map.
use vstd::prelude::*;

use crate::camera::{clamp_axis, follow_axis, Camera};
use crate::entity::{keep_axis, Player};
use crate::map::TileMap;

verus! {

/// Anything that changes once per tick.
pub trait Updateable {
    fn update(&mut self);
}

/// The frame counter after one more frame: it counts up to `fps` and then
/// starts again at 0.
pub fn next_frame_count(fc: u8, fps: u8) -> (r: u8)
    ensures
        r == if fc + 1 > fps { 0 } else { fc + 1 },
{
    if fc >= fps {
        0
    } else {
        fc + 1
    }
}

/// Holds pure game data: whether it runs, the debug flag, the active map
/// (none in menus), the camera and the player.
pub struct Game<T> {
    pub running: bool,
    pub debug: bool,
    pub current_map: Option<TileMap<T>>,
    pub camera: Camera,
    pub player: Player<T>,
}

impl<T> Game<T> {
    /// Create a new, running `Game`.
    pub fn new(db: bool, current_map: Option<TileMap<T>>, cam: Camera, p: Player<T>) -> (r: Self)
        ensures
            r.running,
            r.debug == db,
            r.current_map == current_map,
            r.camera == cam,
            r.player == p,
    {
        Game { running: true, debug: db, current_map: current_map, camera: cam, player: p }
    }

    /// Makes `map` the active map.
    pub fn set_map(&mut self, map: TileMap<T>)
        ensures
            final(self).current_map == Some(map),
            final(self).running == old(self).running,
            final(self).debug == old(self).debug,
            final(self).camera == old(self).camera,
            final(self).player == old(self).player,
    {
        self.current_map = Some(map);
    }

    /// The player, the camera and the active map lie within the bounds that
    /// the per-tick arithmetic needs.
    pub open spec fn in_range(&self) -> bool {
        &&& self.player.me.wf()
        &&& self.player.me.en.in_range()
        &&& self.camera.in_range()
        &&& match self.current_map {
            Some(m) => m.dims_fit(),
            None => true,
        }
    }

    /// See `MoveableEntity::keep_on_screen`.
    pub fn keep_on_screen(&mut self, w: u32, h: u32)
        requires
            old(self).player.me.wf(),
            old(self).player.me.en.in_range(),
        ensures
            final(self).player.me.wf(),
            final(self).player.me.en.in_range(),
            final(self).player.me.en.pos.x == keep_axis(
                old(self).player.me.en.pos.x as int,
                old(self).player.me.en.collision_rect.x as int,
                old(self).player.me.en.collision_rect.w as int,
                w as int,
            ),
            final(self).player.me.en.pos.y == keep_axis(
                old(self).player.me.en.pos.y as int,
                old(self).player.me.en.collision_rect.y as int,
                old(self).player.me.en.collision_rect.h as int,
                h as int,
            ),
            final(self).player.me.en.collision_rect == old(self).player.me.en.collision_rect,
            final(self).running == old(self).running,
            final(self).debug == old(self).debug,
            final(self).camera == old(self).camera,
            final(self).current_map == old(self).current_map,
    {
        self.player.keep_on_screen(w, h);
    }

    /// Keeps the player inside the active map, where there is one.
    pub fn keep_player_on_map(&mut self)
        requires
            old(self).in_range(),
        ensures
            final(self).in_range(),
            final(self).running == old(self).running,
            final(self).debug == old(self).debug,
            final(self).camera == old(self).camera,
            final(self).current_map == old(self).current_map,
            old(self).current_map is None ==> final(self).player == old(self).player,
            old(self).current_map matches Some(m) ==> {
                let o = old(self).player.me.en;
                let f = final(self).player.me.en;
                &&& f.pos.x == keep_axis(
                    o.pos.x as int,
                    o.collision_rect.x as int,
                    o.collision_rect.w as int,
                    m.width * m.tile_width,
                )
                &&& f.pos.y == keep_axis(
                    o.pos.y as int,
                    o.collision_rect.y as int,
                    o.collision_rect.h as int,
                    m.height * m.tile_height,
                )
            },
    {
        let dims = match &self.current_map {
            Some(m) => Some((m.pixel_width(), m.pixel_height())),
            None => None,
        };
        if let Some((w, h)) = dims {
            self.keep_on_screen(w, h);
        }
    }

    /// Moves the camera after the player: by the player's overflow out of
    /// the dead zone on each axis, then back inside the active map.
    pub fn update_camera(&mut self)
        requires
            old(self).in_range(),
            old(self).current_map is Some,
        ensures
            final(self).in_range(),
            final(self).running == old(self).running,
            final(self).debug == old(self).debug,
            final(self).current_map == old(self).current_map,
            final(self).player == old(self).player,
            final(self).camera.width == old(self).camera.width,
            final(self).camera.height == old(self).camera.height,
            final(self).camera.collision_rect == old(self).camera.collision_rect,
            ({
                let c = old(self).camera;
                let p = old(self).player.me.en;
                let m = old(self).current_map->0;
                let cr = c.collision_rect;
                let pr = p.collision_rect;
                let lx = p.pos.x + pr.x;
                let ly = p.pos.y + pr.y;
                &&& final(self).camera.pos.x == clamp_axis(
                    follow_axis(c.pos.x as int, cr.x as int, cr.w as int, lx, lx + pr.w),
                    c.width as int,
                    m.width * m.tile_width,
                )
                &&& final(self).camera.pos.y == clamp_axis(
                    follow_axis(c.pos.y as int, cr.y as int, cr.h as int, ly, ly + pr.h),
                    c.height as int,
                    m.height * m.tile_height,
                )
            }),
    {
        let cr = self.camera.collision_rect;
        let pr = self.player.me.en.collision_rect;
        let ppos = self.player.me.en.pos;
        let (camera_left, camera_right, camera_top, camera_bottom) = (
            self.camera.pos.x + cr.x,
            self.camera.pos.x + cr.x + cr.w as i64,
            self.camera.pos.y + cr.y,
            self.camera.pos.y + cr.y + cr.h as i64,
        );
        let (player_left, player_right, player_top, player_bottom) = (
            ppos.x + pr.x,
            ppos.x + pr.x + pr.w as i64,
            ppos.y + pr.y,
            ppos.y + pr.y + pr.h as i64,
        );
        let (pw, ph) = match &self.current_map {
            Some(m) => (m.pixel_width() as i64, m.pixel_height() as i64),
            None => (0, 0),
        };

        if player_right > camera_right {
            self.camera.pos.x = player_right - cr.w as i64 - cr.x;
        } else if player_left < camera_left {
            self.camera.pos.x = player_left - cr.x;
        }
        if player_bottom > camera_bottom {
            self.camera.pos.y = player_bottom - cr.h as i64 - cr.y;
        } else if player_top < camera_top {
            self.camera.pos.y = player_top - cr.y;
        }

        // keep the camera within the map
        if self.camera.pos.x + self.camera.width > pw {
            self.camera.pos.x = pw - self.camera.width;
        } else if self.camera.pos.x < 0 {
            self.camera.pos.x = 0;
        }
        if self.camera.pos.y + self.camera.height > ph {
            self.camera.pos.y = ph - self.camera.height;
        } else if self.camera.pos.y < 0 {
            self.camera.pos.y = 0;
        }
    }
}

} // verus!
