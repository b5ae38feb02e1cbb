//! Tilesets, the grid of resolved tiles, and camera culling.
use vstd::prelude::*;

use std::rc::Rc;

use crate::camera::Camera;
use crate::geometry::Rect;
use crate::tiled;

verus! {

/// `s` is the integer square root of `n`.
pub open spec fn is_floor_sqrt(n: int, s: int) -> bool {
    0 <= s && s * s <= n < (s + 1) * (s + 1)
}

/// The integer square root of `n`.
pub open spec fn floor_sqrt(n: int) -> int {
    choose|s: int| is_floor_sqrt(n, s)
}

proof fn lemma_floor_sqrt_unique(n: int, a: int, b: int)
    requires
        is_floor_sqrt(n, a),
        is_floor_sqrt(n, b),
    ensures
        a == b,
{
    if a < b {
        assert((a + 1) * (a + 1) <= b * b) by (nonlinear_arith)
            requires
                0 <= a,
                a + 1 <= b,
        ;
    } else if b < a {
        assert((b + 1) * (b + 1) <= a * a) by (nonlinear_arith)
            requires
                0 <= b,
                b + 1 <= a,
        ;
    }
}

/// An atlas texture cut into tiles.
pub struct Tileset<T> {
    pub firstgid: u32,
    pub texture: Rc<T>,
    pub texture_width: u32,
    pub texture_height: u32,
    pub tile_width: u32,
    pub tile_height: u32,
    pub tile_count: u32,
    pub margin: u32,
    pub spacing: u32,
}

impl<T> Tileset<T> {
    /// A tileset on `texture`, of `texture_width` by `texture_height`
    /// pixels, with the geometry of the Tiled tileset `ts`.
    pub fn new_from_tiled_tileset(
        texture: Rc<T>,
        texture_width: u32,
        texture_height: u32,
        ts: &tiled::Tileset,
    ) -> (r: Self)
        ensures
            r.firstgid == ts.firstgid,
            r.texture == texture,
            r.texture_width == texture_width,
            r.texture_height == texture_height,
            r.tile_width == ts.tilewidth,
            r.tile_height == ts.tileheight,
            r.tile_count == ts.tilecount,
            r.margin == ts.margin,
            r.spacing == ts.spacing,
    {
        Tileset {
            firstgid: ts.firstgid,
            texture: texture,
            texture_width: texture_width,
            texture_height: texture_height,
            tile_width: ts.tilewidth,
            tile_height: ts.tileheight,
            tile_count: ts.tilecount,
            margin: ts.margin,
            spacing: ts.spacing,
        }
    }

    /// Tiles per row and per column: the atlas is taken to be a square
    /// grid of `tile_count` tiles.
    pub open spec fn side(&self) -> int {
        floor_sqrt(self.tile_count as int)
    }

    /// Row of the zero-based tile index `k`.
    pub open spec fn row_of(&self, k: int) -> int {
        k / self.side()
    }

    /// Column of the zero-based tile index `k`.
    pub open spec fn col_of(&self, k: int) -> int {
        k % self.side()
    }

    /// Source rectangle of tile `id` in the atlas; `None` for 0, which
    /// stands for no tile.
    pub open spec fn tile_rect(&self, id: int) -> Option<Rect> {
        if id == 0 {
            None
        } else {
            Some(
                Rect {
                    x: (self.margin + self.col_of(id - 1) * (self.tile_width + self.spacing)) as i64,
                    y: (self.margin + self.row_of(id - 1) * (self.tile_height + self.spacing)) as i64,
                    w: self.tile_width,
                    h: self.tile_height,
                },
            )
        }
    }

    /// Tile `id` can be looked up: it is 0, or the atlas has tiles and the
    /// tile's row lies where an `i64` can reach.
    pub open spec fn resolvable(&self, id: int) -> bool {
        id == 0 || (self.tile_count >= 1 && self.margin + self.row_of(id - 1) * (self.tile_height
            + self.spacing) <= i64::MAX)
    }

    /// Tiles per row and per column of the atlas.
    pub fn side_len(&self) -> (r: u32)
        ensures
            r == self.side(),
            is_floor_sqrt(self.tile_count as int, r as int),
            r <= 0xFFFF,
            self.tile_count >= 1 ==> r >= 1,
    {
        let n = self.tile_count as u64;
        let mut s: u64 = 0;
        while (s + 1) * (s + 1) <= n
            invariant
                s * s <= n,
                n <= u32::MAX,
                s <= 0xFFFF,
                (s + 1) * (s + 1) <= 0x1_0000_0000,
            decreases n - s,
        {
            assert(s + 1 <= n && s + 1 <= 0xFFFF) by (nonlinear_arith)
                requires
                    (s + 1) * (s + 1) <= n,
                    n <= u32::MAX,
            ;
            assert((s + 2) * (s + 2) <= 0x1_0000_0000) by (nonlinear_arith)
                requires
                    s + 1 <= 0xFFFF,
            ;
            s = s + 1;
        }
        proof {
            if s == 0 {
                assert(n < 1) by (nonlinear_arith)
                    requires
                        s == 0,
                        !((s + 1) * (s + 1) <= n),
                ;
            }
            lemma_floor_sqrt_unique(n as int, s as int, floor_sqrt(n as int));
        }
        s as u32
    }

    fn row_for_id(&self, id: u32) -> (r: u32)
        requires
            self.tile_count >= 1,
        ensures
            r == self.row_of(id as int),
    {
        let s = self.side_len();
        id / s
    }

    fn col_for_id(&self, id: u32) -> (r: u32)
        requires
            self.tile_count >= 1,
        ensures
            r == self.col_of(id as int),
            r < self.side(),
    {
        let s = self.side_len();
        id % s
    }

    /// Source rectangle of tile `id` in the atlas; `None` for 0.
    pub fn tile_for_id(&self, id: u32) -> (r: Option<Rect>)
        requires
            self.resolvable(id as int),
        ensures
            r == self.tile_rect(id as int),
    {
        if id == 0 {
            return None;
        }
        let k = id - 1;
        let (row, col) = (self.row_for_id(k), self.col_for_id(k));
        let s = self.side_len();
        let stride_x = self.tile_width as u64 + self.spacing as u64;
        let stride_y = self.tile_height as u64 + self.spacing as u64;
        assert(col * stride_x <= 0xFFFF * 0x2_0000_0000) by (nonlinear_arith)
            requires
                col < s,
                s <= 0xFFFF,
                stride_x <= 0x2_0000_0000,
        ;
        assert(row * stride_y <= i64::MAX);
        let x = self.margin as u64 + col as u64 * stride_x;
        let y = self.margin as u64 + row as u64 * stride_y;
        Some(Rect { x: x as i64, y: y as i64, w: self.tile_width, h: self.tile_height })
    }
}

/// One cell of a map: the shared atlas and the part of it to draw (`None`
/// for an empty cell).
pub struct Tile<T> {
    pub texture: Rc<T>,
    pub clip_rect: Option<Rect>,
}

impl<T> Tile<T> {
    /// A cell drawing `cr` of `tx`.
    pub fn new(tx: Rc<T>, cr: Option<Rect>) -> (r: Self)
        ensures
            r.texture == tx,
            r.clip_rect == cr,
    {
        Tile { texture: tx, clip_rect: cr }
    }
}

/// A visible cell as it is to be drawn: where in the grid, what part of
/// the atlas, and where on screen.
#[derive(Clone, Copy, Debug, PartialEq, Eq, Structural)]
pub struct TileDraw {
    pub row: usize,
    pub col: usize,
    pub clip: Rect,
    pub dest: Rect,
}

/// `(r1, c1)` comes before `(r2, c2)` in row-major order.
pub open spec fn before(r1: int, c1: int, r2: int, c2: int) -> bool {
    r1 < r2 || (r1 == r2 && c1 < c2)
}

/// A grid of tiles, `height` rows of `width` cells of `tile_width` by
/// `tile_height` pixels.
pub struct TileMap<T> {
    pub width: u32,
    pub height: u32,
    pub tile_width: u32,
    pub tile_height: u32,
    pub tiles: Vec<Vec<Tile<T>>>,
}

impl<T> TileMap<T> {
    /// An empty map with the size of the Tiled map `tmap`.
    pub fn new_from_tiled_map(tmap: &tiled::TiledMap) -> (r: Self)
        ensures
            r.width == tmap.width,
            r.height == tmap.height,
            r.tile_width == tmap.tilewidth,
            r.tile_height == tmap.tileheight,
            r.tiles@.len() == 0,
    {
        TileMap {
            width: tmap.width,
            height: tmap.height,
            tile_width: tmap.tilewidth,
            tile_height: tmap.tileheight,
            tiles: Vec::new(),
        }
    }

    /// The size in pixels fits in a `u32`.
    pub open spec fn dims_fit(&self) -> bool {
        self.width * self.tile_width <= u32::MAX && self.height * self.tile_height <= u32::MAX
    }

    /// The size fits, and the grid holds no more rows and cells than the
    /// map's size.
    pub open spec fn wf(&self) -> bool {
        &&& self.dims_fit()
        &&& self.tiles@.len() <= self.height
        &&& forall|i: int| 0 <= i < self.tiles@.len() ==> #[trigger] self.tiles@[i]@.len() <= self.width
    }

    /// Width in pixels.
    pub fn pixel_width(&self) -> (r: u32)
        requires
            self.width * self.tile_width <= u32::MAX,
        ensures
            r == self.width * self.tile_width,
    {
        self.width * self.tile_width
    }

    /// Height in pixels.
    pub fn pixel_height(&self) -> (r: u32)
        requires
            self.height * self.tile_height <= u32::MAX,
        ensures
            r == self.height * self.tile_height,
    {
        self.height * self.tile_height
    }
}

impl<T> TileMap<T> {
    /// The cell `(i, j)` lies in the grid.
    pub open spec fn in_grid(&self, i: int, j: int) -> bool {
        0 <= i < self.tiles@.len() && 0 <= j < self.tiles@[i]@.len()
    }

    /// Cell `(i, j)` holds a tile whose box meets the camera's view in both
    /// axes (boxes that only touch the view's edge count as meeting it).
    pub open spec fn visible(&self, i: int, j: int, c: &Camera) -> bool {
        &&& self.tiles@[i]@[j].clip_rect is Some
        &&& !culled(j * self.tile_width, self.tile_width as int, c.pos.x as int, c.width as int)
        &&& !culled(i * self.tile_height, self.tile_height as int, c.pos.y as int, c.height as int)
    }

    /// How cell `(i, j)` is drawn: its part of the atlas, at its place in
    /// the world less the camera's position.
    pub open spec fn draw_of(&self, i: int, j: int, c: &Camera) -> TileDraw {
        TileDraw {
            row: i as usize,
            col: j as usize,
            clip: self.tiles@[i]@[j].clip_rect->0,
            dest: Rect {
                x: (j * self.tile_width - c.pos.x) as i64,
                y: (i * self.tile_height - c.pos.y) as i64,
                w: self.tile_width,
                h: self.tile_height,
            },
        }
    }

    /// Fills the empty grid from `data`, one tile ID per cell in row-major
    /// order, each cell drawing its tile of `ts`.
    pub fn insert_data_using_tilset(&mut self, data: &[u8], ts: &Tileset<T>)
        requires
            old(self).tiles@.len() == 0,
            old(self).width * old(self).height <= data@.len(),
            forall|k: int|
                0 <= k < old(self).width * old(self).height ==> ts.resolvable(
                    #[trigger] data@[k] as int,
                ),
        ensures
            final(self).width == old(self).width,
            final(self).height == old(self).height,
            final(self).tile_width == old(self).tile_width,
            final(self).tile_height == old(self).tile_height,
            final(self).tiles@.len() == old(self).height,
            forall|i: int|
                0 <= i < old(self).height ==> (#[trigger] final(self).tiles@[i])@.len()
                    == old(self).width,
            forall|i: int, j: int|
                0 <= i < old(self).height && 0 <= j < old(self).width ==> {
                    &&& (#[trigger] final(self).tiles@[i]@[j]).clip_rect == ts.tile_rect(
                        data@[i * old(self).width + j] as int,
                    )
                    &&& final(self).tiles@[i]@[j].texture == ts.texture
                },
    {
        let w = self.width as usize;
        let h = self.height as usize;
        let len = data.len();
        let mut i: usize = 0;
        while i < h
            invariant
                len == data@.len(),
                w == self.width,
                h == self.height,
                w * h <= data@.len(),
                i <= h,
                self.width == old(self).width,
                self.height == old(self).height,
                self.tile_width == old(self).tile_width,
                self.tile_height == old(self).tile_height,
                self.tiles@.len() == i,
                forall|k: int| 0 <= k < w * h ==> ts.resolvable(#[trigger] data@[k] as int),
                forall|a: int| 0 <= a < i ==> (#[trigger] self.tiles@[a])@.len() == w,
                forall|a: int, b: int|
                    0 <= a < i && 0 <= b < w ==> {
                        &&& (#[trigger] self.tiles@[a]@[b]).clip_rect == ts.tile_rect(
                            data@[a * w + b] as int,
                        )
                        &&& self.tiles@[a]@[b].texture == ts.texture
                    },
            decreases h - i,
        {
            let mut row: Vec<Tile<T>> = Vec::with_capacity(w);
            let mut j: usize = 0;
            while j < w
                invariant
                    len == data@.len(),
                    w * h <= data@.len(),
                    i < h,
                    j <= w,
                    row@.len() == j,
                    forall|k: int| 0 <= k < w * h ==> ts.resolvable(#[trigger] data@[k] as int),
                    forall|b: int|
                        0 <= b < j ==> {
                            &&& (#[trigger] row@[b]).clip_rect == ts.tile_rect(
                                data@[i * w + b] as int,
                            )
                            &&& row@[b].texture == ts.texture
                        },
                decreases w - j,
            {
                assert(i * w + j < w * h && 0 <= i * w) by (nonlinear_arith)
                    requires
                        i < h,
                        j < w,
                ;
                let id = data[i * w + j];
                row.push(Tile::new(ts.texture.clone(), ts.tile_for_id(id as u32)));
                j = j + 1;
            }
            self.tiles.push(row);
            i = i + 1;
        }
    }

    /// The visible cells, in row-major order, each with its part of the
    /// atlas and its place on screen. Cells outside the view in either axis,
    /// and empty cells, are left out.
    pub fn visible_tiles(&self, c: &Camera) -> (r: Vec<TileDraw>)
        requires
            self.wf(),
            c.in_range(),
        ensures
            forall|k: int|
                0 <= k < r@.len() ==> {
                    let (i, j) = (r@[k].row as int, r@[k].col as int);
                    &&& self.in_grid(i, j)
                    &&& self.visible(i, j, c)
                    &&& #[trigger] r@[k] == self.draw_of(i, j, c)
                },
            forall|k: int, l: int|
                0 <= k < l < r@.len() ==> before(
                    #[trigger] r@[k].row as int,
                    r@[k].col as int,
                    #[trigger] r@[l].row as int,
                    r@[l].col as int,
                ),
            forall|i: int, j: int|
                self.in_grid(i, j) && self.visible(i, j, c) ==> #[trigger] drawn(r@, i, j),
    {
        let mut out: Vec<TileDraw> = Vec::new();
        let tw = self.tile_width as i64;
        let th = self.tile_height as i64;
        let n = self.tiles.len();
        let mut i: usize = 0;
        while i < n
            invariant
                self.wf(),
                c.in_range(),
                n == self.tiles@.len(),
                tw == self.tile_width,
                th == self.tile_height,
                i <= n,
                forall|k: int|
                    0 <= k < out@.len() ==> {
                        let (a, b) = (out@[k].row as int, out@[k].col as int);
                        &&& a < i
                        &&& self.in_grid(a, b)
                        &&& self.visible(a, b, c)
                        &&& #[trigger] out@[k] == self.draw_of(a, b, c)
                    },
                forall|k: int, l: int|
                    0 <= k < l < out@.len() ==> before(
                        #[trigger] out@[k].row as int,
                        out@[k].col as int,
                        #[trigger] out@[l].row as int,
                        out@[l].col as int,
                    ),
                forall|a: int, b: int|
                    0 <= a < i && self.in_grid(a, b) && self.visible(a, b, c) ==> #[trigger] drawn(
                        out@,
                        a,
                        b,
                    ),
            decreases n - i,
        {
            let row = &self.tiles[i];
            let m = row.len();
            assert(m <= self.width);
            let mut j: usize = 0;
            while j < m
                invariant
                    self.wf(),
                    c.in_range(),
                    n == self.tiles@.len(),
                    tw == self.tile_width,
                    th == self.tile_height,
                    i < n,
                    *row == self.tiles@[i as int],
                    m == row@.len(),
                    m <= self.width,
                    j <= m,
                    forall|k: int|
                        0 <= k < out@.len() ==> {
                            let (a, b) = (out@[k].row as int, out@[k].col as int);
                            &&& before(a, b, i as int, j as int)
                            &&& self.in_grid(a, b)
                            &&& self.visible(a, b, c)
                            &&& #[trigger] out@[k] == self.draw_of(a, b, c)
                        },
                    forall|k: int, l: int|
                        0 <= k < l < out@.len() ==> before(
                            #[trigger] out@[k].row as int,
                            out@[k].col as int,
                            #[trigger] out@[l].row as int,
                            out@[l].col as int,
                        ),
                    forall|a: int, b: int|
                        self.in_grid(a, b) && self.visible(a, b, c) && before(
                            a,
                            b,
                            i as int,
                            j as int,
                        ) ==> #[trigger] drawn(out@, a, b),
                decreases m - j,
            {
                let tile = &row[j];
                assert(j * self.tile_width <= self.width * self.tile_width) by (nonlinear_arith)
                    requires
                        j < self.width,
                ;
                assert(i * self.tile_height <= self.height * self.tile_height) by (nonlinear_arith)
                    requires
                        i < self.height,
                ;
                let x = j as i64 * tw;
                let y = i as i64 * th;
                let skip_x = x + tw < c.pos.x || x > c.pos.x + c.width;
                let skip_y = y + th < c.pos.y || y > c.pos.y + c.height;
                let ghost before_out = out@;
                if !skip_x && !skip_y {
                    if let Some(clip) = tile.clip_rect {
                        let d = TileDraw {
                            row: i,
                            col: j,
                            clip: clip,
                            dest: Rect { x: x - c.pos.x, y: y - c.pos.y, w: self.tile_width, h: self.tile_height },
                        };
                        out.push(d);
                        proof {
                            assert(out@[out@.len() - 1] == d);
                            assert(forall|k: int| 0 <= k < before_out.len() ==> out@[k] == before_out[k]);
                            assert forall|a: int, b: int|
                                self.in_grid(a, b) && self.visible(a, b, c) && before(
                                    a,
                                    b,
                                    i as int,
                                    j + 1,
                                ) implies #[trigger] drawn(out@, a, b) by {
                                if a == i && b == j {
                                    assert(out@[out@.len() - 1].row == a && out@[out@.len() - 1].col == b);
                                } else {
                                    assert(drawn(before_out, a, b));
                                    let k = choose|k: int| 0 <= k < before_out.len() && before_out[k].row == a
                                        && before_out[k].col == b;
                                    assert(out@[k] == before_out[k]);
                                }
                            }
                        }
                    }
                }
                j = j + 1;
            }
            i = i + 1;
        }
        out
    }
}

/// Cell `(i, j)` is among the cells drawn.
pub open spec fn drawn(r: Seq<TileDraw>, i: int, j: int) -> bool {
    exists|k: int| 0 <= k < r.len() && r[k].row == i && r[k].col == j
}

/// A box `[lo, lo + len]` lies beyond the view `[cam, cam + view]` on one axis.
pub open spec fn culled(lo: int, len: int, cam: int, view: int) -> bool {
    lo + len < cam || lo > cam + view
}

} // verus!
