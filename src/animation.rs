//! Per-entity directional sprite-sheet animation.
use vstd::prelude::*;

use crate::direction::{Direction, DIRECTION_COUNT};
use crate::geometry::{coord_ok, Point, Rect};

verus! {

/// Per-direction tables, each indexed by `Direction::ord`, that an animation
/// can run on: every direction has an entry, at least one frame, a cycle at
/// least as long as its frame count (so that frames advance every
/// `cycle / frames >= 1` ticks), and an atlas offset within the coordinate
/// bound.
pub open spec fn valid_tables(
    anim_len: Seq<u8>,
    frames: Seq<u8>,
    offsets: Seq<Point>,
    rows: Seq<u8>,
) -> bool {
    &&& anim_len.len() == DIRECTION_COUNT
    &&& frames.len() == DIRECTION_COUNT
    &&& offsets.len() == DIRECTION_COUNT
    &&& rows.len() == DIRECTION_COUNT
    &&& forall|i: int| 0 <= i < DIRECTION_COUNT ==> #[trigger] entry_ok(anim_len, frames, offsets, i)
}

/// Entry `i` of the tables: at least one frame, a cycle at least as long
/// as the frame count, and an offset within the coordinate bound.
pub open spec fn entry_ok(anim_len: Seq<u8>, frames: Seq<u8>, offsets: Seq<Point>, i: int) -> bool {
    &&& frames[i] >= 1
    &&& anim_len[i] >= frames[i]
    &&& offsets[i].in_range()
}

/// Contains all the data for animating a sprite.
pub struct Animation {
    /// Sprite counter: the frame shown.
    pub sc: u8,
    /// Animation length in ticks for each direction, used to calculate
    /// when to change the sprite frame.
    pub dir_to_anim_len: Vec<u8>,
    /// Animation counter: how many ticks into the current animation loop
    /// the entity is.
    pub ac: u8,
    /// Number of frames of each direction. This allows non-uniform sprite
    /// maps (e.g. 5 frames for left/right, but 1 frame for jump/fall).
    pub dir_to_frames: Vec<u8>,
    /// Offset of each direction's frames in the sprite map.
    pub dir_to_offset: Vec<Point>,
    /// Row of each direction in the sprite map.
    pub dir_to_pos: Vec<u8>,
    /// Whether the animation runs backwards.
    pub reverse: bool,
}

impl Animation {
    /// The tables are valid and the sprite counter can still be advanced.
    pub open spec fn wf(&self) -> bool {
        &&& valid_tables(
            self.dir_to_anim_len@,
            self.dir_to_frames@,
            self.dir_to_offset@,
            self.dir_to_pos@,
        )
        &&& self.sc < 255
    }

    /// Cycle length of a direction, in ticks.
    pub open spec fn cycle(&self, d: Direction) -> int {
        self.dir_to_anim_len@[d.ord()] as int
    }

    /// Frame count of a direction.
    pub open spec fn frames(&self, d: Direction) -> int {
        self.dir_to_frames@[d.ord()] as int
    }

    /// Ticks between two frame changes of a direction.
    pub open spec fn step(&self, d: Direction) -> int {
        self.cycle(d) / self.frames(d)
    }

    /// The sprite counter after one tick in direction `d`: it moves on when
    /// the animation counter is a multiple of the step, and wraps to 0 past
    /// the last frame.
    pub open spec fn next_sc(&self, d: Direction) -> int {
        if self.ac as int % self.step(d) == 0 {
            if self.sc + 1 > self.frames(d) - 1 {
                0
            } else {
                self.sc + 1
            }
        } else {
            self.sc as int
        }
    }

    /// The animation counter after one tick in direction `d`: it counts up
    /// and wraps to 1 past the cycle length.
    pub open spec fn next_ac(&self, d: Direction) -> int {
        if self.ac + 1 > self.cycle(d) {
            1
        } else {
            self.ac + 1
        }
    }

    /// The frame drawn in direction `d`: counted from the end when the
    /// animation runs backwards and has more than one frame.
    pub open spec fn shown_frame(&self, d: Direction) -> int {
        if self.reverse && self.frames(d) > 1 {
            self.frames(d) - self.sc
        } else {
            self.sc as int
        }
    }

    /// Source rectangle of the current frame in direction `d`, for frames
    /// of `w` by `h` pixels.
    pub open spec fn frame_rect_of(&self, d: Direction, w: u32, h: u32) -> Rect {
        let off = self.dir_to_offset@[d.ord()];
        Rect {
            x: (off.x + self.shown_frame(d) * w) as i64,
            y: (off.y + self.dir_to_pos@[d.ord()] * h) as i64,
            w,
            h,
        }
    }

    /// Whether the tables are valid (see `valid_tables`).
    pub fn tables_valid(
        dtal: &Vec<u8>,
        dtf: &Vec<u8>,
        dto: &Vec<Point>,
        dtp: &Vec<u8>,
    ) -> (r: bool)
        ensures
            r == valid_tables(dtal@, dtf@, dto@, dtp@),
    {
        if dtal.len() != DIRECTION_COUNT || dtf.len() != DIRECTION_COUNT || dto.len()
            != DIRECTION_COUNT || dtp.len() != DIRECTION_COUNT {
            return false;
        }
        let mut i: usize = 0;
        while i < DIRECTION_COUNT
            invariant
                dtal@.len() == DIRECTION_COUNT,
                dtf@.len() == DIRECTION_COUNT,
                dto@.len() == DIRECTION_COUNT,
                dtp@.len() == DIRECTION_COUNT,
                i <= DIRECTION_COUNT,
                forall|k: int| 0 <= k < i ==> #[trigger] entry_ok(dtal@, dtf@, dto@, k),
            decreases DIRECTION_COUNT - i,
        {
            let off = dto[i];
            if dtf[i] < 1 || dtal[i] < dtf[i] || off.x < -crate::geometry::COORD_LIMIT
                || off.x > crate::geometry::COORD_LIMIT || off.y < -crate::geometry::COORD_LIMIT
                || off.y > crate::geometry::COORD_LIMIT {
                assert(!entry_ok(dtal@, dtf@, dto@, i as int));
                return false;
            }
            i = i + 1;
        }
        true
    }

    /// A new animation on the given per-direction tables (cycle lengths,
    /// frame counts, atlas offsets, atlas rows), at frame 1 and tick 0.
    pub fn new(
        dtal: Vec<u8>,
        dtf: Vec<u8>,
        dto: Vec<Point>,
        dtp: Vec<u8>,
        reverse: bool,
    ) -> (r: Self)
        requires
            valid_tables(dtal@, dtf@, dto@, dtp@),
        ensures
            r.wf(),
            r.sc == 1,
            r.ac == 0,
            r.dir_to_anim_len@ == dtal@,
            r.dir_to_frames@ == dtf@,
            r.dir_to_offset@ == dto@,
            r.dir_to_pos@ == dtp@,
            r.reverse == reverse,
    {
        Animation {
            sc: 1,
            dir_to_anim_len: dtal,
            ac: 0,
            dir_to_frames: dtf,
            dir_to_offset: dto,
            dir_to_pos: dtp,
            reverse: reverse,
        }
    }

    /// This animation back at frame 1, tick 0.
    pub open spec fn restarted(self) -> Animation {
        Animation { sc: 1, ac: 0, ..self }
    }

    /// This animation one tick further in direction `d`.
    pub open spec fn ticked(self, d: Direction) -> Animation {
        Animation { sc: self.next_sc(d) as u8, ac: self.next_ac(d) as u8, ..self }
    }

    /// Back to frame 1, tick 0.
    pub fn reset(&mut self)
        requires
            old(self).wf(),
        ensures
            final(self).wf(),
            *final(self) == old(self).restarted(),
    {
        self.sc = 1;
        self.ac = 0;
    }

    /// Advances the counters by one tick in direction `d`.
    pub fn advance(&mut self, d: Direction)
        requires
            old(self).wf(),
        ensures
            final(self).wf(),
            final(self).sc == old(self).next_sc(d),
            final(self).ac == old(self).next_ac(d),
            *final(self) == old(self).ticked(d),
            1 <= final(self).ac <= old(self).cycle(d),
            old(self).ac as int % old(self).step(d) == 0 ==> final(self).sc < old(self).frames(d),
    {
        let i = d.index();
        let anim_len = self.dir_to_anim_len[i];
        let frame_count = self.dir_to_frames[i];
        assert(entry_ok(self.dir_to_anim_len@, self.dir_to_frames@, self.dir_to_offset@, i as int));
        let change_every = anim_len / frame_count;
        assert(change_every >= 1) by (nonlinear_arith)
            requires
                frame_count >= 1,
                anim_len >= frame_count,
                change_every == anim_len / frame_count,
        ;
        if self.ac % change_every == 0 {
            self.sc = self.sc + 1;
            if self.sc > frame_count - 1 {
                self.sc = 0;
            }
        }
        if self.ac >= anim_len {
            self.ac = 1;
        } else {
            self.ac = self.ac + 1;
        }
    }

    /// Source rectangle of the current frame in direction `d`, for frames
    /// of `w` by `h` pixels.
    pub fn frame_rect(&self, d: Direction, w: u32, h: u32) -> (r: Rect)
        requires
            self.wf(),
        ensures
            r == self.frame_rect_of(d, w, h),
            r.x == self.dir_to_offset@[d.ord()].x + self.shown_frame(d) * w,
            r.y == self.dir_to_offset@[d.ord()].y + self.dir_to_pos@[d.ord()] * h,
    {
        let i = d.index();
        let off = self.dir_to_offset[i];
        let frames = self.dir_to_frames[i];
        assert(entry_ok(self.dir_to_anim_len@, self.dir_to_frames@, self.dir_to_offset@, i as int));
        let shown: i64 = if self.reverse && frames > 1 {
            frames as i64 - self.sc as i64
        } else {
            self.sc as i64
        };
        let wide_w = w as i64;
        let wide_h = h as i64;
        let row = self.dir_to_pos[i] as i64;
        assert(-256 * 0x1_0000_0000 <= shown * wide_w <= 256 * 0x1_0000_0000) by (nonlinear_arith)
            requires
                -256 <= shown <= 256,
                0 <= wide_w < 0x1_0000_0000,
        ;
        assert(0 <= row * wide_h <= 256 * 0x1_0000_0000) by (nonlinear_arith)
            requires
                0 <= row <= 256,
                0 <= wide_h < 0x1_0000_0000,
        ;
        assert(coord_ok(off.x as int) && coord_ok(off.y as int));
        Rect { x: off.x + shown * wide_w, y: off.y + row * wide_h, w, h }
    }
}

} // verus!
