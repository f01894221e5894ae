//! Model of the tile-based display surface and the composite-tile renderer.
//!
//! The surface holds one entry per 8-unit sub-tile plus a scroll offset; a
//! logical 16-unit super-tile is drawn or blanked as a 2x2 block of
//! sub-tiles. Writes are idempotent: the surface is a grid of cells, not a
//! log, so redrawing the same state leaves the same picture.

use vstd::prelude::*;
use crate::fixed::IntVec2;

verus! {

/// One sub-tile position of the surface: blank, or a graphic chosen from a
/// tile sheet by the index of its display setting.
#[derive(Clone, Copy, Debug, PartialEq, Eq, Structural)]
pub enum SubTile {
    Blank,
    Graphic { sheet: u16, setting: usize },
}

/// An opaque reference to a decoded tile sheet. The settings themselves
/// (graphics, flip flags, palettes) live outside the core; the core only
/// records which sheet and which setting index each sub-tile uses.
#[derive(Clone, Copy, Debug, PartialEq, Eq, Structural)]
pub struct TileAssets {
    pub sheet: u16,
}

/// The four sub-tile setting indices of one super-tile, in row-major
/// quadrant order: top-left, top-right, bottom-left, bottom-right.
#[derive(Clone, Copy, Debug)]
pub struct Tile16Indices(pub [usize; 4]);

/// A rectangular surface of sub-tiles with a scroll offset, written to by
/// the grid renderer and read by the display back end.
#[derive(Debug)]
pub struct Background {
    pub width: i32,
    pub height: i32,
    pub tiles: Vec<SubTile>,
    pub scroll_x: i32,
    pub scroll_y: i32,
}

/// Position of sub-tile `(x, y)` in row-major storage of width `w`.
pub open spec fn row_major(x: int, y: int, w: int) -> int {
    x + y * w
}

/// A row-major position is within the storage of a `w` by `h` surface.
pub proof fn lemma_row_major_bounds(x: int, y: int, w: int, h: int) by (nonlinear_arith)
    requires
        0 <= x < w,
        0 <= y < h,
    ensures
        0 <= row_major(x, y, w) < w * h,
{
}

/// Two sub-tile coordinates occupy the same row-major position exactly when
/// they are the same coordinate.
pub proof fn lemma_row_major_distinct(x1: int, y1: int, x2: int, y2: int, w: int) by (nonlinear_arith)
    requires
        0 <= x1 < w,
        0 <= x2 < w,
        0 <= y1,
        0 <= y2,
    ensures
        (row_major(x1, y1, w) == row_major(x2, y2, w)) <==> (x1 == x2 && y1 == y2),
{
}

impl Background {
    /// The surface holds exactly one entry per sub-tile position, and its
    /// area is small enough for positions to be computed in `i32`.
    pub open spec fn wf(self) -> bool {
        &&& 0 <= self.width
        &&& 0 <= self.height
        &&& self.width * self.height <= i32::MAX
        &&& self.tiles@.len() == self.width * self.height
    }

    /// The sub-tile stored at `(x, y)`.
    pub open spec fn sub_tile(self, x: int, y: int) -> SubTile {
        self.tiles@[row_major(x, y, self.width as int)]
    }

    /// A blank surface of `width` by `height` sub-tiles with scroll (0, 0).
    pub fn new(width: i32, height: i32) -> (bg: Background)
        requires
            0 <= width,
            0 <= height,
            width * height <= i32::MAX,
        ensures
            bg.wf(),
            bg.width == width,
            bg.height == height,
            bg.scroll_x == 0,
            bg.scroll_y == 0,
            forall|x: int, y: int|
                0 <= x < width && 0 <= y < height ==> bg.sub_tile(x, y) == SubTile::Blank,
    {
        let total64: i64 = width as i64 * height as i64;
        let total: usize = total64 as usize;
        let mut tiles: Vec<SubTile> = Vec::new();
        while tiles.len() < total
            invariant
                tiles@.len() <= total,
                total == width * height,
                forall|i: int| 0 <= i < tiles@.len() ==> tiles@[i] == SubTile::Blank,
            decreases total - tiles@.len(),
        {
            tiles.push(SubTile::Blank);
        }
        let bg = Background { width, height, tiles, scroll_x: 0, scroll_y: 0 };
        proof {
            assert forall|x: int, y: int|
                0 <= x < width && 0 <= y < height implies bg.sub_tile(x, y) == SubTile::Blank by {
                lemma_row_major_bounds(x, y, width as int, height as int);
            }
        }
        bg
    }

    /// Writes one sub-tile; every other sub-tile and the scroll offset keep
    /// their value.
    pub fn set_tile(&mut self, x: i32, y: i32, tile: SubTile)
        requires
            old(self).wf(),
            0 <= x < old(self).width,
            0 <= y < old(self).height,
        ensures
            final(self).wf(),
            final(self).width == old(self).width,
            final(self).height == old(self).height,
            final(self).scroll_x == old(self).scroll_x,
            final(self).scroll_y == old(self).scroll_y,
            final(self).tiles@ == old(self).tiles@.update(
                row_major(x as int, y as int, old(self).width as int),
                tile,
            ),
    {
        proof {
            lemma_row_major_bounds(x as int, y as int, self.width as int, self.height as int);
        }
        let idx: usize = (x + y * self.width) as usize;
        self.tiles[idx] = tile;
    }

    /// Repositions the scroll offset; the sub-tiles keep their values.
    pub fn set_scroll(&mut self, x: i32, y: i32)
        ensures
            final(self).width == old(self).width,
            final(self).height == old(self).height,
            final(self).tiles@ == old(self).tiles@,
            final(self).scroll_x == x,
            final(self).scroll_y == y,
    {
        self.scroll_x = x;
        self.scroll_y = y;
    }
}

/// The super-tile whose top-left sub-tile sits at `(sx, sy)` shows the four
/// graphics selected by `inds`, quadrant `q = dx + 2 * dy`, and every other
/// sub-tile of `bg` keeps the value it has in `prev`.
pub open spec fn super_tile_drawn(
    prev: Background,
    bg: Background,
    sx: int,
    sy: int,
    sheet: u16,
    inds: Seq<usize>,
) -> bool {
    forall|x: int, y: int|
        0 <= x < bg.width && 0 <= y < bg.height ==> bg.sub_tile(x, y) == (
        if sx <= x < sx + 2 && sy <= y < sy + 2 {
            SubTile::Graphic { sheet, setting: inds[(x - sx) + 2 * (y - sy)] }
        } else {
            prev.sub_tile(x, y)
        })
}

/// The super-tile whose top-left sub-tile sits at `(sx, sy)` is blank, and
/// every other sub-tile of `bg` keeps the value it has in `prev`.
pub open spec fn super_tile_blanked(prev: Background, bg: Background, sx: int, sy: int) -> bool {
    forall|x: int, y: int|
        0 <= x < bg.width && 0 <= y < bg.height ==> bg.sub_tile(x, y) == (
        if sx <= x < sx + 2 && sy <= y < sy + 2 {
            SubTile::Blank
        } else {
            prev.sub_tile(x, y)
        })
}

/// Dimensions and scroll offset survive a super-tile write.
pub open spec fn same_frame(prev: Background, bg: Background) -> bool {
    &&& bg.width == prev.width
    &&& bg.height == prev.height
    &&& bg.scroll_x == prev.scroll_x
    &&& bg.scroll_y == prev.scroll_y
}

/// Law: drawing a super-tile is idempotent. If the same index set is
/// written to the same block twice in a row, the second write leaves
/// every visible sub-tile exactly as the first write left it.
pub proof fn lemma_draw_idempotent(
    first: Background,
    second: Background,
    third: Background,
    sx: int,
    sy: int,
    sheet: u16,
    inds: Seq<usize>,
)
    requires
        second.width == first.width,
        second.height == first.height,
        third.width == second.width,
        third.height == second.height,
        super_tile_drawn(first, second, sx, sy, sheet, inds),
        super_tile_drawn(second, third, sx, sy, sheet, inds),
    ensures
        forall|x: int, y: int|
            0 <= x < third.width && 0 <= y < third.height ==> #[trigger] third.sub_tile(x, y)
                == second.sub_tile(x, y),
{
}

/// Law: blanking a super-tile is idempotent in the same way.
pub proof fn lemma_clear_idempotent(
    first: Background,
    second: Background,
    third: Background,
    sx: int,
    sy: int,
)
    requires
        second.width == first.width,
        second.height == first.height,
        third.width == second.width,
        third.height == second.height,
        super_tile_blanked(first, second, sx, sy),
        super_tile_blanked(second, third, sx, sy),
    ensures
        forall|x: int, y: int|
            0 <= x < third.width && 0 <= y < third.height ==> #[trigger] third.sub_tile(x, y)
                == second.sub_tile(x, y),
{
}

/// Draws a super-tile: writes the four sub-tiles of the 2x2 block at
/// `tile_pos` (in sub-tile coordinates), choosing the graphic of quadrant
/// `(dx, dy)` by the setting index `indices.0[dx + 2 * dy]`.
pub fn draw_tile16(bg: &mut Background, tile_pos: IntVec2, assets: &TileAssets, indices: &Tile16Indices)
    requires
        old(bg).wf(),
        0 <= tile_pos.x,
        tile_pos.x + 2 <= old(bg).width,
        0 <= tile_pos.y,
        tile_pos.y + 2 <= old(bg).height,
    ensures
        final(bg).wf(),
        same_frame(*old(bg), *final(bg)),
        super_tile_drawn(
            *old(bg),
            *final(bg),
            tile_pos.x as int,
            tile_pos.y as int,
            assets.sheet,
            indices.0@,
        ),
{
    let sheet: u16 = assets.sheet;
    bg.set_tile(tile_pos.x, tile_pos.y, SubTile::Graphic { sheet, setting: indices.0[0] });
    bg.set_tile(tile_pos.x + 1, tile_pos.y, SubTile::Graphic { sheet, setting: indices.0[1] });
    bg.set_tile(tile_pos.x, tile_pos.y + 1, SubTile::Graphic { sheet, setting: indices.0[2] });
    bg.set_tile(tile_pos.x + 1, tile_pos.y + 1, SubTile::Graphic { sheet, setting: indices.0[3] });
    proof {
        let sx = tile_pos.x as int;
        let sy = tile_pos.y as int;
        let w = old(bg).width as int;
        let h = old(bg).height as int;
        assert forall|x: int, y: int|
            0 <= x < w && 0 <= y < h implies (*bg).sub_tile(x, y) == (
            if sx <= x < sx + 2 && sy <= y < sy + 2 {
                SubTile::Graphic { sheet, setting: indices.0@[(x - sx) + 2 * (y - sy)] }
            } else {
                old(bg).sub_tile(x, y)
            }) by {
            lemma_row_major_bounds(x, y, w, h);
            lemma_row_major_bounds(sx, sy, w, h);
            lemma_row_major_bounds(sx + 1, sy, w, h);
            lemma_row_major_bounds(sx, sy + 1, w, h);
            lemma_row_major_bounds(sx + 1, sy + 1, w, h);
            lemma_row_major_distinct(x, y, sx, sy, w);
            lemma_row_major_distinct(x, y, sx + 1, sy, w);
            lemma_row_major_distinct(x, y, sx, sy + 1, w);
            lemma_row_major_distinct(x, y, sx + 1, sy + 1, w);
        }
    }
}

/// Blanks a super-tile: writes the blank sub-tile to all four positions of
/// the 2x2 block at `tile_pos` (in sub-tile coordinates). The sheet
/// reference accompanies the write as the rasterizer's interface asks,
/// but the blank graphic does not depend on it.
pub fn clear_tile16(bg: &mut Background, tile_pos: IntVec2, assets: &TileAssets)
    requires
        old(bg).wf(),
        0 <= tile_pos.x,
        tile_pos.x + 2 <= old(bg).width,
        0 <= tile_pos.y,
        tile_pos.y + 2 <= old(bg).height,
    ensures
        final(bg).wf(),
        same_frame(*old(bg), *final(bg)),
        super_tile_blanked(*old(bg), *final(bg), tile_pos.x as int, tile_pos.y as int),
{
    bg.set_tile(tile_pos.x, tile_pos.y, SubTile::Blank);
    bg.set_tile(tile_pos.x + 1, tile_pos.y, SubTile::Blank);
    bg.set_tile(tile_pos.x, tile_pos.y + 1, SubTile::Blank);
    bg.set_tile(tile_pos.x + 1, tile_pos.y + 1, SubTile::Blank);
    proof {
        let sx = tile_pos.x as int;
        let sy = tile_pos.y as int;
        let w = old(bg).width as int;
        let h = old(bg).height as int;
        assert forall|x: int, y: int|
            0 <= x < w && 0 <= y < h implies (*bg).sub_tile(x, y) == (
            if sx <= x < sx + 2 && sy <= y < sy + 2 {
                SubTile::Blank
            } else {
                old(bg).sub_tile(x, y)
            }) by {
            lemma_row_major_bounds(x, y, w, h);
            lemma_row_major_bounds(sx, sy, w, h);
            lemma_row_major_bounds(sx + 1, sy, w, h);
            lemma_row_major_bounds(sx, sy + 1, w, h);
            lemma_row_major_bounds(sx + 1, sy + 1, w, h);
            lemma_row_major_distinct(x, y, sx, sy, w);
            lemma_row_major_distinct(x, y, sx + 1, sy, w);
            lemma_row_major_distinct(x, y, sx, sy + 1, w);
            lemma_row_major_distinct(x, y, sx + 1, sy + 1, w);
        }
    }
}

} // verus!
