//! Drawable entities, moving and animated entities, and the player.
use vstd::prelude::*;

use std::rc::Rc;

use crate::animation::{valid_tables, Animation};
use crate::camera::Camera;
use crate::direction::Direction;
use crate::geometry::{Point, Rect};

verus! {

/// Building block struct that holds the basic data that all game entities
/// need: position, collision box (relative to the position), the shared
/// sprite map and the part of it that is drawn (the whole map when `None`).
pub struct Entity<T> {
    pub pos: Point,
    pub collision_rect: Rect,
    pub sprite_map: Rc<T>,
    pub draw_rect: Option<Rect>,
}

impl<T> Entity<T> {
    /// Create a new `Entity`.
    pub fn new(p: Point, cr: Rect, t: Rc<T>, dr: Option<Rect>) -> (r: Self)
        ensures
            r.pos == p,
            r.collision_rect == cr,
            r.sprite_map == t,
            r.draw_rect == dr,
    {
        Entity { pos: p, collision_rect: cr, sprite_map: t, draw_rect: dr }
    }

    /// Position and collision box lie within the coordinate bounds.
    pub open spec fn in_range(&self) -> bool {
        self.pos.in_range() && self.collision_rect.is_local()
    }

    /// Where the entity lands on screen: its position relative to the
    /// camera, with the size of the drawn part of the sprite map (of the
    /// whole map, of `tex_w` by `tex_h` pixels, where nothing is selected).
    pub fn screen_rect(&self, c: &Camera, tex_w: u32, tex_h: u32) -> (r: Rect)
        requires
            self.pos.in_range(),
            c.pos.in_range(),
        ensures
            r.x == self.pos.x - c.pos.x,
            r.y == self.pos.y - c.pos.y,
            r.w == match self.draw_rect {
                Some(dr) => dr.w,
                None => tex_w,
            },
            r.h == match self.draw_rect {
                Some(dr) => dr.h,
                None => tex_h,
            },
    {
        let (w, h) = match self.draw_rect {
            Some(dr) => (dr.w, dr.h),
            None => (tex_w, tex_h),
        };
        Rect { x: self.pos.x - c.pos.x, y: self.pos.y - c.pos.y, w, h }
    }

    /// The collision box on screen, relative to the camera.
    pub fn debug_rect(&self, c: &Camera) -> (r: Rect)
        requires
            self.in_range(),
            c.pos.in_range(),
        ensures
            r.x == self.collision_rect.x + self.pos.x - c.pos.x,
            r.y == self.collision_rect.y + self.pos.y - c.pos.y,
            r.w == self.collision_rect.w,
            r.h == self.collision_rect.h,
    {
        let cr = self.collision_rect;
        Rect { x: cr.x + self.pos.x - c.pos.x, y: cr.y + self.pos.y - c.pos.y, w: cr.w, h: cr.h }
    }
}

/// Position on one axis that keeps the box `[pos + off, pos + off + len]`
/// inside `[0, extent]`: pushed right at the low end first, else left at
/// the high end.
pub open spec fn keep_axis(pos: int, off: int, len: int, extent: int) -> int {
    if off + pos < 0 {
        -off
    } else if off + pos + len > extent {
        extent - (len + off)
    } else {
        pos
    }
}

/// Whether `keep_axis` pushed the box back from the high end.
pub open spec fn hits_far_edge(pos: int, off: int, len: int, extent: int) -> bool {
    off + pos >= 0 && off + pos + len > extent
}

/// The resting direction that follows a horizontal movement.
pub open spec fn still_of(d: Direction) -> Direction {
    match d {
        Direction::Left => Direction::StillLeft,
        _ => Direction::StillRight,
    }
}

/// The animation, where there is one, back at its start.
pub open spec fn restarted(anim: Option<Animation>) -> Option<Animation> {
    match anim {
        Some(a) => Some(a.restarted()),
        None => None,
    }
}

/// The animation, where there is one, one tick further in direction `d`.
pub open spec fn ticked(anim: Option<Animation>, d: Direction) -> Option<Animation> {
    match anim {
        Some(a) => Some(a.ticked(d)),
        None => None,
    }
}

/// A game entity that moves and is animated.
pub struct MoveableEntity<T> {
    pub en: Entity<T>,
    pub dir: Direction,
    /// The last `Direction` the entity was going.
    pub l_dir: Direction,
    pub anim: Option<Animation>,
}

impl<T> MoveableEntity<T> {
    /// The animation, where there is one, is well formed.
    pub open spec fn wf(&self) -> bool {
        match self.anim {
            Some(a) => a.wf(),
            None => true,
        }
    }


    /// What `change_dir(d)` makes of this entity: `Landed` restores the
    /// remembered direction and leaves `Landed` as the remembered one;
    /// while airborne nothing else changes anything; otherwise the current
    /// direction is remembered and `d` taken, and a resting direction
    /// resets the animation.
    pub open spec fn changed_dir(&self, d: Direction, next: &Self) -> bool {
        &&& next.en == self.en
        &&& if d is Landed {
            &&& next.dir == self.l_dir
            &&& next.l_dir == Direction::Landed
            &&& next.anim == self.anim
        } else if self.dir.is_airborne() {
            *next == *self
        } else {
            &&& next.dir == d
            &&& next.l_dir == self.dir
            &&& if d is StillLeft || d is StillRight {
                next.anim == restarted(self.anim)
            } else {
                next.anim == self.anim
            }
        }
    }

    /// Create a new `MoveableEntity` facing `d`, which is also the
    /// remembered direction.
    pub fn new(p: Point, cr: Rect, t: Rc<T>, dr: Option<Rect>, d: Direction, anim: Option<Animation>) -> (r: Self)
        ensures
            r.en.pos == p,
            r.en.collision_rect == cr,
            r.en.sprite_map == t,
            r.en.draw_rect == dr,
            r.dir == d,
            r.l_dir == d,
            r.anim == anim,
    {
        MoveableEntity { en: Entity::new(p, cr, t, dr), dir: d, l_dir: d, anim: anim }
    }

    /// Keeps the collision box inside `[0, w] x [0, h]`; an airborne entity
    /// pushed back up from the bottom has landed.
    pub fn keep_on_screen(&mut self, w: u32, h: u32)
        requires
            old(self).wf(),
            old(self).en.in_range(),
        ensures
            final(self).wf(),
            final(self).en.in_range(),
            ({
                let o = *old(self);
                let f = *final(self);
                let cr = o.en.collision_rect;
                let landed = hits_far_edge(o.en.pos.y as int, cr.y as int, cr.h as int, h as int)
                    && o.dir.is_airborne();
                &&& f.en.pos.x == keep_axis(o.en.pos.x as int, cr.x as int, cr.w as int, w as int)
                &&& f.en.pos.y == keep_axis(o.en.pos.y as int, cr.y as int, cr.h as int, h as int)
                &&& f.en.collision_rect == cr
                &&& f.en.sprite_map == o.en.sprite_map
                &&& f.en.draw_rect == o.en.draw_rect
                &&& landed ==> f.dir == o.l_dir && f.l_dir == Direction::Landed
                &&& !landed ==> f.dir == o.dir && f.l_dir == o.l_dir
                &&& f.anim == o.anim
            }),
    {
        let cr = self.en.collision_rect;
        let (cx, cy, cw, ch) = (cr.x, cr.y, cr.w as i64, cr.h as i64);
        if cx + self.en.pos.x < 0 {
            self.en.pos.x = -cx;
        } else if cx + self.en.pos.x + cw > w as i64 {
            self.en.pos.x = w as i64 - (cw + cx);
        }
        if cy + self.en.pos.y < 0 {
            self.en.pos.y = -cy;
        } else if cy + self.en.pos.y + ch > h as i64 {
            self.en.pos.y = h as i64 - (ch + cy);
            match self.dir {
                Direction::Up | Direction::DoubleUp => self.change_dir(Direction::Landed),
                _ => (),
            }
        }
    }

    fn reset_anim(&mut self)
        requires
            old(self).wf(),
        ensures
            final(self).wf(),
            final(self).anim == restarted(old(self).anim),
            final(self).en == old(self).en,
            final(self).dir == old(self).dir,
            final(self).l_dir == old(self).l_dir,
    {
        if let Some(anim) = &mut self.anim {
            anim.reset();
        }
    }

    /// Whether `stopped` makes a moving entity come to rest.
    pub open spec fn settles(&self, stopped: bool) -> bool {
        stopped && (self.dir is Right || self.dir is Left)
    }

    /// One tick: with no horizontal speed left (`stopped`), a left or right
    /// movement comes to rest; then, if a part of the sprite map is
    /// selected, the animation advances in the current direction.
    pub fn update(&mut self, stopped: bool)
        requires
            old(self).wf(),
        ensures
            final(self).wf(),
            ({
                let o = *old(self);
                let f = *final(self);
                let settled = o.settles(stopped);
                let a0 = if settled { restarted(o.anim) } else { o.anim };
                &&& f.en == o.en
                &&& f.dir == if settled { still_of(o.dir) } else { o.dir }
                &&& f.l_dir == if settled { o.dir } else { o.l_dir }
                &&& f.anim == if o.en.draw_rect is None { a0 } else { ticked(a0, f.dir) }
            }),
    {
        if stopped {
            match self.dir {
                Direction::Right => self.change_dir(Direction::StillRight),
                Direction::Left => self.change_dir(Direction::StillLeft),
                _ => (),
            }
        }
        if self.en.draw_rect.is_none() {
            return;
        }
        let d = self.dir;
        if let Some(anim) = &mut self.anim {
            anim.advance(d);
        }
    }

    /// Selects the current frame of the animation in the sprite map, where
    /// a part of it is selected and there is an animation: frames keep the
    /// size of the selected part.
    pub fn refresh_draw_rect(&mut self)
        requires
            old(self).wf(),
        ensures
            final(self).wf(),
            final(self).dir == old(self).dir,
            final(self).l_dir == old(self).l_dir,
            final(self).anim == old(self).anim,
            final(self).en.pos == old(self).en.pos,
            final(self).en.collision_rect == old(self).en.collision_rect,
            final(self).en.sprite_map == old(self).en.sprite_map,
            final(self).en.draw_rect == match (old(self).en.draw_rect, old(self).anim) {
                (Some(dr), Some(a)) => Some(a.frame_rect_of(old(self).dir, dr.w, dr.h)),
                _ => old(self).en.draw_rect,
            },
    {
        if let (Some(dr), Some(anim)) = (self.en.draw_rect, &self.anim) {
            let r = anim.frame_rect(self.dir, dr.w, dr.h);
            self.en.draw_rect = Some(r);
        }
    }

    /// Requests direction `d` (see `changed_dir`).
    pub fn change_dir(&mut self, d: Direction)
        requires
            old(self).wf(),
        ensures
            final(self).wf(),
            old(self).changed_dir(d, &*final(self)),
    {
        if d == Direction::Landed {
            self.dir = self.l_dir;
            self.l_dir = d;
            return;
        } else if self.dir == Direction::Up || self.dir == Direction::DoubleUp {
            return;
        }
        self.l_dir = self.dir;
        self.dir = d;
        if d == Direction::StillLeft || d == Direction::StillRight {
            self.reset_anim();
        }
    }
}

/// Specialised version of `MoveableEntity` with the player's mechanics.
pub struct Player<T> {
    pub me: MoveableEntity<T>,
}

impl<T> Player<T> {
    /// Create a new `Player` facing `d`, animated with the given tables
    /// (atlas rows, cycle lengths, frame counts, atlas offsets).
    pub fn new(
        p: Point,
        cr: Rect,
        t: Rc<T>,
        dr: Option<Rect>,
        d: Direction,
        dtp: Vec<u8>,
        dtal: Vec<u8>,
        dtf: Vec<u8>,
        dto: Vec<Point>,
        reverse: bool,
    ) -> (r: Self)
        requires
            valid_tables(dtal@, dtf@, dto@, dtp@),
        ensures
            r.me.wf(),
            r.me.en.pos == p,
            r.me.en.collision_rect == cr,
            r.me.en.sprite_map == t,
            r.me.en.draw_rect == dr,
            r.me.dir == d,
            r.me.l_dir == d,
            r.me.anim matches Some(a) && {
                &&& a.sc == 1
                &&& a.ac == 0
                &&& a.dir_to_anim_len@ == dtal@
                &&& a.dir_to_frames@ == dtf@
                &&& a.dir_to_offset@ == dto@
                &&& a.dir_to_pos@ == dtp@
                &&& a.reverse == reverse
            },
    {
        Player {
            me: MoveableEntity::new(p, cr, t, dr, d, Some(Animation::new(dtal, dtf, dto, dtp, reverse))),
        }
    }

    /// See `MoveableEntity::keep_on_screen`.
    pub fn keep_on_screen(&mut self, w: u32, h: u32)
        requires
            old(self).me.wf(),
            old(self).me.en.in_range(),
        ensures
            final(self).me.wf(),
            final(self).me.en.in_range(),
            ({
                let o = old(self).me;
                let f = final(self).me;
                let cr = o.en.collision_rect;
                let landed = hits_far_edge(o.en.pos.y as int, cr.y as int, cr.h as int, h as int)
                    && o.dir.is_airborne();
                &&& f.en.pos.x == keep_axis(o.en.pos.x as int, cr.x as int, cr.w as int, w as int)
                &&& f.en.pos.y == keep_axis(o.en.pos.y as int, cr.y as int, cr.h as int, h as int)
                &&& f.en.collision_rect == cr
                &&& f.en.sprite_map == o.en.sprite_map
                &&& f.en.draw_rect == o.en.draw_rect
                &&& landed ==> f.dir == o.l_dir && f.l_dir == Direction::Landed
                &&& !landed ==> f.dir == o.dir && f.l_dir == o.l_dir
                &&& f.anim == o.anim
            }),
    {
        self.me.keep_on_screen(w, h);
    }

    /// Jumps: from the ground into `Up`, from `Up` into `DoubleUp`; a third
    /// jump is refused. Returns whether the jump happened, in which case the
    /// caller gives the player its upward impulse.
    pub fn jump(&mut self) -> (r: bool)
        requires
            old(self).me.wf(),
        ensures
            final(self).me.wf(),
            r == !(old(self).me.dir is DoubleUp),
            final(self).me.en == old(self).me.en,
            final(self).me.anim == old(self).me.anim,
            old(self).me.dir is DoubleUp ==> final(self).me == old(self).me,
            old(self).me.dir is Up ==> final(self).me.dir == Direction::DoubleUp
                && final(self).me.l_dir == old(self).me.l_dir,
            !old(self).me.dir.is_airborne() ==> final(self).me.dir == Direction::Up
                && final(self).me.l_dir == old(self).me.dir,
    {
        match self.me.dir {
            Direction::DoubleUp => return false,
            Direction::Up => {
                self.me.dir = Direction::DoubleUp;
            },
            _ => {
                self.me.change_dir(Direction::Up);
            },
        }
        true
    }

    /// Horizontal input: left wins over right. Requests the matching
    /// direction and returns the sign of the horizontal impulse to apply
    /// (-1, 0 or 1).
    pub fn steer(&mut self, left: bool, right: bool) -> (r: i64)
        requires
            old(self).me.wf(),
        ensures
            final(self).me.wf(),
            r == if left { -1int } else if right { 1int } else { 0int },
            left ==> old(self).me.changed_dir(Direction::Left, &final(self).me),
            !left && right ==> old(self).me.changed_dir(Direction::Right, &final(self).me),
            !left && !right ==> final(self).me == old(self).me,
    {
        if left {
            self.me.change_dir(Direction::Left);
            -1
        } else if right {
            self.me.change_dir(Direction::Right);
            1
        } else {
            0
        }
    }
}

} // verus!
