//! The minefield: the rectangular array of cell states, its parallel mine
//! storage, the cursor bound to its pixel extent, and the per-frame
//! controller that turns an input snapshot into exactly one of reveal,
//! mark-cycle or cursor movement.

use vstd::prelude::*;
use crate::cursor::{AudioSink, Frame, PlayerCursor, TILE_SIZE_RAW};
use crate::fixed::{div_trunc, lemma_div_trunc_bounds, round_raw, Fixed, FixedVec2, IntVec2};
use crate::render::{
    clear_tile16, draw_tile16, lemma_row_major_bounds, row_major, same_frame, super_tile_blanked,
    super_tile_drawn, Background, SubTile, Tile16Indices, TileAssets,
};

verus! {

/// Concealment state of one cell. `Clear` is revealed and terminal; the
/// three concealed states cycle `Block` -> `Flag` -> `Question` -> `Block`
/// under the secondary action.
#[derive(Clone, Copy, Debug, PartialEq, Eq, Structural)]
pub enum MinefieldBlock {
    Clear,
    Block,
    Flag,
    Question,
}

/// What a revealed cell will show once mine placement fills the `mines`
/// storage: nothing, a neighbour count, or a mine.
#[derive(Clone, Copy, Debug, PartialEq, Eq, Structural)]
pub enum MinefieldItem {
    Blank,
    Number(u32),
    Mine,
}

/// One axis of the directional pad, as a net just-pressed direction.
#[derive(Clone, Copy, Debug, PartialEq, Eq, Structural)]
pub enum Tri {
    Negative,
    Zero,
    Positive,
}

impl Tri {
    /// The signed unit value of this direction.
    pub open spec fn value(self) -> int {
        match self {
            Tri::Negative => -1,
            Tri::Zero => 0,
            Tri::Positive => 1,
        }
    }

    /// The signed unit value, for executable arithmetic.
    pub fn as_i32(self) -> (r: i32)
        ensures
            r as int == self.value(),
    {
        match self {
            Tri::Negative => -1,
            Tri::Zero => 0,
            Tri::Positive => 1,
        }
    }
}

/// The per-frame input snapshot: edge-triggered action buttons and the net
/// just-pressed direction of each axis.
#[derive(Clone, Copy, Debug, PartialEq, Eq, Structural)]
pub struct InputSnapshot {
    pub primary: bool,
    pub secondary: bool,
    pub x_tri: Tri,
    pub y_tri: Tri,
}

/// The minefield: cell states and mines in row-major order (position
/// `col + row * width`), the pixel position of its top-left corner, and the
/// player cursor it mediates for.
#[derive(Debug)]
pub struct Minefield {
    pub size: IntVec2,
    pub pos: FixedVec2,
    pub mines: Vec<bool>,
    pub blocks: Vec<MinefieldBlock>,
    pub cursor: PlayerCursor,
}

/// The state a concealed cell moves to under the secondary action.
/// `Clear` is terminal and never moves.
pub open spec fn next_mark(b: MinefieldBlock) -> MinefieldBlock {
    match b {
        MinefieldBlock::Clear => MinefieldBlock::Clear,
        MinefieldBlock::Block => MinefieldBlock::Flag,
        MinefieldBlock::Flag => MinefieldBlock::Question,
        MinefieldBlock::Question => MinefieldBlock::Block,
    }
}

/// The four sub-tile setting indices that draw a concealed state, in
/// row-major quadrant order.
pub open spec fn mark_indices(b: MinefieldBlock) -> Seq<usize> {
    match b {
        MinefieldBlock::Clear => seq![],
        MinefieldBlock::Block => seq![0usize, 1usize, 2usize, 3usize],
        MinefieldBlock::Flag => seq![4usize, 5usize, 6usize, 7usize],
        MinefieldBlock::Question => seq![8usize, 9usize, 10usize, 11usize],
    }
}

/// How quadrant `q` of a cell's super-tile looks: blank for a revealed
/// cell, otherwise the graphic its state's index set selects.
pub open spec fn cell_subtile(b: MinefieldBlock, sheet: u16, q: int) -> SubTile {
    if b is Clear {
        SubTile::Blank
    } else {
        SubTile::Graphic { sheet, setting: mark_indices(b)[q] }
    }
}

impl Minefield {
    /// Cell coordinates within the field.
    pub open spec fn in_bounds(size: IntVec2, tile_pos: IntVec2) -> bool {
        &&& 0 <= tile_pos.x < size.x
        &&& 0 <= tile_pos.y < size.y
    }

    /// Row-major storage position of a cell coordinate.
    pub open spec fn cell_index(size: IntVec2, tile_pos: IntVec2) -> int {
        row_major(tile_pos.x as int, tile_pos.y as int, size.x as int)
    }

    /// Well-formedness: one cell state and one mine flag per cell, and a
    /// size small enough that storage positions and the pixel extent
    /// `pos + size * 16` stay within `i32`.
    pub open spec fn wf(self) -> bool {
        &&& 0 <= self.size.x
        &&& 0 <= self.size.y
        &&& self.size.x * self.size.y <= i32::MAX
        &&& self.blocks@.len() == self.size.x * self.size.y
        &&& self.mines@.len() == self.size.x * self.size.y
        &&& self.size.x * TILE_SIZE_RAW <= i32::MAX
        &&& self.size.y * TILE_SIZE_RAW <= i32::MAX
        &&& self.pos.x.raw + self.size.x * TILE_SIZE_RAW <= i32::MAX
        &&& self.pos.y.raw + self.size.y * TILE_SIZE_RAW <= i32::MAX
    }

    /// The field's rendering covers only sub-tiles that the surface has.
    pub open spec fn fits_surface(self, bg: Background) -> bool {
        &&& 2 * self.size.x <= bg.width
        &&& 2 * self.size.y <= bg.height
    }

    /// A field of this size at this position can be allocated and keeps all
    /// of its arithmetic within `i32`.
    pub open spec fn creatable(size: IntVec2, pos: FixedVec2) -> bool {
        &&& 0 <= size.x
        &&& 0 <= size.y
        &&& size.x * size.y <= i32::MAX
        &&& size.x * TILE_SIZE_RAW <= i32::MAX
        &&& size.y * TILE_SIZE_RAW <= i32::MAX
        &&& pos.x.raw + size.x * TILE_SIZE_RAW <= i32::MAX
        &&& pos.y.raw + size.y * TILE_SIZE_RAW <= i32::MAX
    }

    /// Creates a minefield of `size` cells with its top-left corner at
    /// pixel position `pos`: every cell `Block` (concealed, unmarked), no
    /// mines, and the cursor anchored at `pos`. Returns `None` exactly when
    /// the field would be too large for its storage positions or its pixel
    /// extent to be computed.
    pub fn new(size: IntVec2, pos: FixedVec2) -> (r: Option<Minefield>)
        ensures
            r is Some <==> Self::creatable(size, pos),
            r matches Some(m) ==> {
                &&& m.wf()
                &&& m.size == size
                &&& m.pos == pos
                &&& m.cursor.pos == pos
                &&& forall|i: int|
                    0 <= i < m.blocks@.len() ==> m.blocks@[i] == MinefieldBlock::Block
                &&& forall|i: int| 0 <= i < m.mines@.len() ==> m.mines@[i] == false
            },
    {
        if size.x < 0 || size.y < 0 {
            return None;
        }
        proof {
            assert(0 <= size.x as i64 * size.y as i64 <= i64::MAX) by (nonlinear_arith)
                requires
                    0 <= size.x < 0x8000_0000,
                    0 <= size.y < 0x8000_0000,
            ;
            assert(0 <= size.x as i64 * TILE_SIZE_RAW as i64 <= i64::MAX) by (nonlinear_arith)
                requires
                    0 <= size.x < 0x8000_0000,
            ;
            assert(0 <= size.y as i64 * TILE_SIZE_RAW as i64 <= i64::MAX) by (nonlinear_arith)
                requires
                    0 <= size.y < 0x8000_0000,
            ;
        }
        let area: i64 = size.x as i64 * size.y as i64;
        let ext_x: i64 = size.x as i64 * TILE_SIZE_RAW as i64;
        let ext_y: i64 = size.y as i64 * TILE_SIZE_RAW as i64;
        if area > i32::MAX as i64 || ext_x > i32::MAX as i64 || ext_y > i32::MAX as i64 {
            return None;
        }
        if pos.x.raw as i64 + ext_x > i32::MAX as i64 || pos.y.raw as i64 + ext_y > i32::MAX as i64 {
            return None;
        }
        let count: usize = area as usize;
        let mines = repeated(count, false);
        let blocks = repeated(count, MinefieldBlock::Block);
        Some(Minefield { size, pos, mines, blocks, cursor: PlayerCursor::new(pos) })
    }

    /// Resizes the field, discarding all prior content: afterwards every
    /// cell is `Block` (concealed, unmarked) and no cell holds a mine,
    /// whatever was there before. Position and cursor are untouched.
    pub fn set_size(&mut self, size: IntVec2)
        requires
            Self::creatable(size, old(self).pos),
        ensures
            final(self).wf(),
            final(self).size == size,
            final(self).pos == old(self).pos,
            final(self).cursor == old(self).cursor,
            forall|i: int|
                0 <= i < final(self).blocks@.len() ==> final(self).blocks@[i]
                    == MinefieldBlock::Block,
            forall|i: int| 0 <= i < final(self).mines@.len() ==> final(self).mines@[i] == false,
    {
        proof {
            assert(0 <= size.x as i64 * size.y as i64 <= i64::MAX) by (nonlinear_arith)
                requires
                    0 <= size.x < 0x8000_0000,
                    0 <= size.y < 0x8000_0000,
            ;
        }
        let area: i64 = size.x as i64 * size.y as i64;
        let count: usize = area as usize;
        self.size = size;
        self.mines = repeated(count, false);
        self.blocks = repeated(count, MinefieldBlock::Block);
    }

    /// Mine placement is outside this core: the field keeps the `mines`
    /// storage and the revealed-item taxonomy for a generator to fill, and
    /// this entry point deliberately leaves the field unchanged.
    pub fn gen_mines(&mut self)
        ensures
            *final(self) == *old(self),
    {
    }

    /// Row-major storage position of an in-bounds cell coordinate.
    pub fn tile_pos_to_index(&self, tile_pos: IntVec2) -> (idx: usize)
        requires
            self.wf(),
            Self::in_bounds(self.size, tile_pos),
        ensures
            idx == Self::cell_index(self.size, tile_pos),
    {
        proof {
            lemma_row_major_bounds(
                tile_pos.x as int,
                tile_pos.y as int,
                self.size.x as int,
                self.size.y as int,
            );
        }
        (tile_pos.x + tile_pos.y * self.size.x) as usize
    }

    /// Reveal applies when the coordinate is a cell of the field and that
    /// cell is neither already revealed nor flagged.
    pub open spec fn reveal_applies(m: Minefield, tile_pos: IntVec2) -> bool {
        &&& Self::in_bounds(m.size, tile_pos)
        &&& !(m.blocks@[Self::cell_index(m.size, tile_pos)] is Clear)
        &&& !(m.blocks@[Self::cell_index(m.size, tile_pos)] is Flag)
    }

    /// What the primary action does to the cells and the surface: where it
    /// applies, exactly one cell becomes `Clear` and exactly its super-tile
    /// is blanked; everywhere else, both keep their state.
    pub open spec fn reveal_transition(
        pre: Minefield,
        post: Minefield,
        pre_bg: Background,
        post_bg: Background,
        tile_pos: IntVec2,
    ) -> bool {
        if Self::reveal_applies(pre, tile_pos) {
            &&& post.blocks@ == pre.blocks@.update(
                Self::cell_index(pre.size, tile_pos),
                MinefieldBlock::Clear,
            )
            &&& super_tile_blanked(pre_bg, post_bg, 2 * tile_pos.x as int, 2 * tile_pos.y as int)
        } else {
            &&& post.blocks@ == pre.blocks@
            &&& post_bg.tiles@ == pre_bg.tiles@
        }
    }

    /// What the secondary action does to the cells and the surface: where
    /// it applies, exactly one cell advances one step through the mark
    /// cycle and exactly its super-tile is redrawn with the new state's
    /// index set; everywhere else, both keep their state.
    pub open spec fn cycle_transition(
        pre: Minefield,
        post: Minefield,
        pre_bg: Background,
        post_bg: Background,
        tile_pos: IntVec2,
        sheet: u16,
    ) -> bool {
        if Self::cycle_applies(pre, tile_pos) {
            &&& post.blocks@ == pre.blocks@.update(
                Self::cell_index(pre.size, tile_pos),
                next_mark(pre.blocks@[Self::cell_index(pre.size, tile_pos)]),
            )
            &&& super_tile_drawn(
                pre_bg,
                post_bg,
                2 * tile_pos.x as int,
                2 * tile_pos.y as int,
                sheet,
                mark_indices(next_mark(pre.blocks@[Self::cell_index(pre.size, tile_pos)])),
            )
        } else {
            &&& post.blocks@ == pre.blocks@
            &&& post_bg.tiles@ == pre_bg.tiles@
        }
    }

    /// The primary action: reveals the cell at `tile_pos` and blanks its
    /// super-tile. A coordinate outside the field, an already revealed
    /// cell, or a flagged cell (the flag protects it) is silently ignored:
    /// the field and the surface keep their state. Otherwise exactly one
    /// cell becomes `Clear` and exactly one super-tile is blanked.
    pub fn remove_tile(&mut self, bg: &mut Background, tile_pos: IntVec2, assets: &TileAssets)
        requires
            old(self).wf(),
            old(bg).wf(),
            old(self).fits_surface(*old(bg)),
        ensures
            final(self).wf(),
            final(bg).wf(),
            same_frame(*old(bg), *final(bg)),
            final(self).size == old(self).size,
            final(self).pos == old(self).pos,
            final(self).mines@ == old(self).mines@,
            final(self).cursor == old(self).cursor,
            Self::reveal_transition(*old(self), *final(self), *old(bg), *final(bg), tile_pos),
    {
        if tile_pos.x >= self.size.x || tile_pos.y >= self.size.y || tile_pos.x < 0
            || tile_pos.y < 0 {
            return;
        }
        let index = self.tile_pos_to_index(tile_pos);
        proof {
            lemma_row_major_bounds(
                tile_pos.x as int,
                tile_pos.y as int,
                self.size.x as int,
                self.size.y as int,
            );
        }
        match self.blocks[index] {
            MinefieldBlock::Clear | MinefieldBlock::Flag => {
                return;
            },
            _ => (),
        }
        self.blocks[index] = MinefieldBlock::Clear;
        clear_tile16(bg, IntVec2 { x: tile_pos.x * 2, y: tile_pos.y * 2 }, assets);
    }

    /// Mark-cycling applies when the coordinate is a cell of the field and
    /// that cell is not revealed.
    pub open spec fn cycle_applies(m: Minefield, tile_pos: IntVec2) -> bool {
        &&& Self::in_bounds(m.size, tile_pos)
        &&& !(m.blocks@[Self::cell_index(m.size, tile_pos)] is Clear)
    }

    /// The secondary action: advances the cell at `tile_pos` one step
    /// through the mark cycle `Block` -> `Flag` -> `Question` -> `Block`
    /// and redraws its super-tile with the index set of the new state. A
    /// coordinate outside the field or a revealed cell is silently
    /// ignored. Otherwise exactly one cell changes and exactly one
    /// super-tile is redrawn.
    pub fn cycle_tile_state(&mut self, bg: &mut Background, tile_pos: IntVec2, assets: &TileAssets)
        requires
            old(self).wf(),
            old(bg).wf(),
            old(self).fits_surface(*old(bg)),
        ensures
            final(self).wf(),
            final(bg).wf(),
            same_frame(*old(bg), *final(bg)),
            final(self).size == old(self).size,
            final(self).pos == old(self).pos,
            final(self).mines@ == old(self).mines@,
            final(self).cursor == old(self).cursor,
            Self::cycle_transition(*old(self), *final(self), *old(bg), *final(bg), tile_pos, assets.sheet),
    {
        if tile_pos.x >= self.size.x || tile_pos.y >= self.size.y || tile_pos.x < 0
            || tile_pos.y < 0 {
            return;
        }
        let index = self.tile_pos_to_index(tile_pos);
        proof {
            lemma_row_major_bounds(
                tile_pos.x as int,
                tile_pos.y as int,
                self.size.x as int,
                self.size.y as int,
            );
        }
        let next_block_type: MinefieldBlock;
        let tile_indices: Tile16Indices;
        match self.blocks[index] {
            MinefieldBlock::Clear => {
                return;
            },
            MinefieldBlock::Block => {
                next_block_type = MinefieldBlock::Flag;
                tile_indices = Tile16Indices([4, 5, 6, 7]);
            },
            MinefieldBlock::Flag => {
                next_block_type = MinefieldBlock::Question;
                tile_indices = Tile16Indices([8, 9, 10, 11]);
            },
            MinefieldBlock::Question => {
                next_block_type = MinefieldBlock::Block;
                tile_indices = Tile16Indices([0, 1, 2, 3]);
            },
        }
        proof {
            assert(tile_indices.0@ =~= mark_indices(next_block_type));
        }
        self.blocks[index] = next_block_type;
        draw_tile16(bg, IntVec2 { x: tile_pos.x * 2, y: tile_pos.y * 2 }, assets, &tile_indices);
    }

    /// Moves the field's top-left corner to pixel position `pos`: the
    /// surface's scroll offset becomes the negated rounded position, and
    /// the cursor is translated by the same delta so it stays over the
    /// same cell. Cells and mines are untouched.
    pub fn set_pos(&mut self, bg: &mut Background, pos: FixedVec2)
        requires
            old(self).wf(),
            pos.x.raw + old(self).size.x * TILE_SIZE_RAW <= i32::MAX,
            pos.y.raw + old(self).size.y * TILE_SIZE_RAW <= i32::MAX,
            i32::MIN <= pos.x.raw - old(self).pos.x.raw <= i32::MAX,
            i32::MIN <= pos.y.raw - old(self).pos.y.raw <= i32::MAX,
            i32::MIN <= old(self).cursor.pos.x.raw + (pos.x.raw - old(self).pos.x.raw) <= i32::MAX,
            i32::MIN <= old(self).cursor.pos.y.raw + (pos.y.raw - old(self).pos.y.raw) <= i32::MAX,
        ensures
            final(self).wf(),
            final(self).size == old(self).size,
            final(self).pos == pos,
            final(self).blocks@ == old(self).blocks@,
            final(self).mines@ == old(self).mines@,
            final(self).cursor.pos.x.raw == old(self).cursor.pos.x.raw + (pos.x.raw - old(
                self,
            ).pos.x.raw),
            final(self).cursor.pos.y.raw == old(self).cursor.pos.y.raw + (pos.y.raw - old(
                self,
            ).pos.y.raw),
            final(bg).width == old(bg).width,
            final(bg).height == old(bg).height,
            final(bg).tiles@ == old(bg).tiles@,
            final(bg).scroll_x as int == -round_raw(pos.x.raw as int),
            final(bg).scroll_y as int == -round_raw(pos.y.raw as int),
    {
        let prev_pos = self.pos;
        self.pos = pos;
        let pixel_pos = pos.round();
        bg.set_scroll(-pixel_pos.x, -pixel_pos.y);
        let cursor_target = self.cursor.pos.add(pos.sub(prev_pos));
        self.cursor.set_pos(cursor_target);
    }

    /// Horizontal cell coordinate under the cursor: the rounded pixel
    /// offset of the cursor from the field's corner, divided by the
    /// super-tile size, truncating toward zero.
    pub open spec fn cursor_cell_x(m: Minefield) -> int {
        div_trunc(round_raw(m.cursor.pos.x.raw - m.pos.x.raw), 16)
    }

    /// Vertical cell coordinate under the cursor.
    pub open spec fn cursor_cell_y(m: Minefield) -> int {
        div_trunc(round_raw(m.cursor.pos.y.raw - m.pos.y.raw), 16)
    }

    /// The cell coordinate whose pixel region contains the cursor anchor.
    pub open spec fn cell_under_cursor(m: Minefield) -> IntVec2 {
        IntVec2 { x: Self::cursor_cell_x(m) as i32, y: Self::cursor_cell_y(m) as i32 }
    }

    /// Computes the cell under the cursor anchor.
    pub fn tile_under_cursor(&self) -> (r: IntVec2)
        requires
            i32::MIN <= self.cursor.pos.x.raw - self.pos.x.raw <= i32::MAX,
            i32::MIN <= self.cursor.pos.y.raw - self.pos.y.raw <= i32::MAX,
        ensures
            r == Self::cell_under_cursor(*self),
    {
        let cursor_pos = self.cursor.pos;
        let offset = cursor_pos.sub(self.pos);
        let rounded = offset.round();
        proof {
            lemma_div_trunc_bounds(rounded.x as int, 16);
            lemma_div_trunc_bounds(rounded.y as int, 16);
        }
        let cx: i32 = rounded.x.checked_div(16).unwrap();
        let cy: i32 = rounded.y.checked_div(16).unwrap();
        IntVec2 { x: cx, y: cy }
    }

    /// Raw horizontal displacement of a candidate cursor move: one
    /// super-tile in the direction the pad reports.
    pub open spec fn move_delta_x(input: InputSnapshot) -> int {
        TILE_SIZE_RAW * input.x_tri.value()
    }

    /// Raw vertical displacement of a candidate cursor move.
    pub open spec fn move_delta_y(input: InputSnapshot) -> int {
        TILE_SIZE_RAW * input.y_tri.value()
    }

    /// A candidate move is rejected when the moved cursor's collision
    /// rectangle would leave the field's pixel extent on either axis.
    pub open spec fn move_blocked(m: Minefield, input: InputSnapshot) -> bool {
        let nx = m.cursor.pos.x.raw + Self::move_delta_x(input);
        let ny = m.cursor.pos.y.raw + Self::move_delta_y(input);
        ||| nx < m.pos.x.raw
        ||| nx + TILE_SIZE_RAW > m.pos.x.raw + m.size.x * TILE_SIZE_RAW
        ||| ny < m.pos.y.raw
        ||| ny + TILE_SIZE_RAW > m.pos.y.raw + m.size.y * TILE_SIZE_RAW
    }

    /// One frame of the controller, in strict priority order. A primary
    /// press reveals the cell under the cursor; otherwise a secondary
    /// press mark-cycles it; otherwise the pad's directions, scaled to one
    /// super-tile, move the cursor — unless the moved collision rectangle
    /// would leave the field, in which case nothing changes and no audio
    /// is requested. Audio is requested exactly for an applied nonzero
    /// move.
    pub fn update(
        &mut self,
        bg: &mut Background,
        input: &InputSnapshot,
        assets: &TileAssets,
        audio: &mut AudioSink,
    )
        requires
            old(self).wf(),
            old(bg).wf(),
            old(self).fits_surface(*old(bg)),
            i32::MIN <= old(self).cursor.pos.x.raw - old(self).pos.x.raw <= i32::MAX,
            i32::MIN <= old(self).cursor.pos.y.raw - old(self).pos.y.raw <= i32::MAX,
            i32::MIN + 2 * TILE_SIZE_RAW <= old(self).cursor.pos.x.raw <= i32::MAX - 2
                * TILE_SIZE_RAW,
            i32::MIN + 2 * TILE_SIZE_RAW <= old(self).cursor.pos.y.raw <= i32::MAX - 2
                * TILE_SIZE_RAW,
            old(audio).plays < u64::MAX,
        ensures
            final(self).wf(),
            final(bg).wf(),
            same_frame(*old(bg), *final(bg)),
            final(self).size == old(self).size,
            final(self).pos == old(self).pos,
            final(self).mines@ == old(self).mines@,
            (if input.primary {
                &&& Self::reveal_transition(
                    *old(self),
                    *final(self),
                    *old(bg),
                    *final(bg),
                    Self::cell_under_cursor(*old(self)),
                )
                &&& final(self).cursor == old(self).cursor
                &&& *final(audio) == *old(audio)
            } else if input.secondary {
                &&& Self::cycle_transition(
                    *old(self),
                    *final(self),
                    *old(bg),
                    *final(bg),
                    Self::cell_under_cursor(*old(self)),
                    assets.sheet,
                )
                &&& final(self).cursor == old(self).cursor
                &&& *final(audio) == *old(audio)
            } else {
                &&& final(self).blocks@ == old(self).blocks@
                &&& final(bg).tiles@ == old(bg).tiles@
                &&& if Self::move_blocked(*old(self), *input) {
                    &&& final(self).cursor == old(self).cursor
                    &&& *final(audio) == *old(audio)
                } else {
                    &&& final(self).cursor.pos.x.raw == old(self).cursor.pos.x.raw
                        + Self::move_delta_x(*input)
                    &&& final(self).cursor.pos.y.raw == old(self).cursor.pos.y.raw
                        + Self::move_delta_y(*input)
                    &&& final(audio).plays == old(audio).plays + (
                    if input.x_tri is Zero && input.y_tri is Zero {
                        0int
                    } else {
                        1int
                    })
                }
            }),
    {
        if input.primary {
            let target = self.tile_under_cursor();
            self.remove_tile(bg, target, assets);
            return;
        }
        if input.secondary {
            let target = self.tile_under_cursor();
            self.cycle_tile_state(bg, target, assets);
            return;
        }
        let maybe_move_by = FixedVec2::from_ints(
            16 * input.x_tri.as_i32(),
            16 * input.y_tri.as_i32(),
        );
        let maybe_cursor_pos = self.cursor.pos.add(maybe_move_by);
        let cursor_size = self.cursor.collision_rect().size;
        let limit_x = self.pos.x.add(Fixed::from_int(self.size.x * 16));
        let limit_y = self.pos.y.add(Fixed::from_int(self.size.y * 16));
        if maybe_cursor_pos.x.raw < self.pos.x.raw
            || maybe_cursor_pos.x.add(cursor_size.x).raw > limit_x.raw
            || maybe_cursor_pos.y.raw < self.pos.y.raw
            || maybe_cursor_pos.y.add(cursor_size.y).raw > limit_y.raw {
            return;
        }
        self.cursor.move_by(maybe_move_by, audio);
    }

    /// The sub-tile that the full redraw puts at surface position
    /// `(x, y)`, derived from the state of the cell covering it.
    pub open spec fn drawn_cell_value(m: Minefield, sheet: u16, x: int, y: int) -> SubTile {
        cell_subtile(
            m.blocks@[row_major(x / 2, y / 2, m.size.x as int)],
            sheet,
            (x % 2) + 2 * (y % 2),
        )
    }

    /// Every sub-tile covered by the field shows its cell's current state;
    /// every other sub-tile keeps the value it has in `prev`.
    pub open spec fn field_drawn(
        m: Minefield,
        prev: Background,
        bg: Background,
        sheet: u16,
    ) -> bool {
        forall|x: int, y: int|
            0 <= x < bg.width && 0 <= y < bg.height ==> bg.sub_tile(x, y) == (
            if x < 2 * m.size.x && y < 2 * m.size.y {
                Self::drawn_cell_value(m, sheet, x, y)
            } else {
                prev.sub_tile(x, y)
            })
    }

    /// Redraws every cell's super-tile from its current state and then
    /// scrolls the surface to the field's rounded pixel position. Called
    /// once after creation and again whenever the position changes.
    pub fn draw_minefield(&self, bg: &mut Background, assets: &TileAssets)
        requires
            self.wf(),
            old(bg).wf(),
            self.fits_surface(*old(bg)),
        ensures
            final(bg).wf(),
            final(bg).width == old(bg).width,
            final(bg).height == old(bg).height,
            Self::field_drawn(*self, *old(bg), *final(bg), assets.sheet),
            final(bg).scroll_x as int == -round_raw(self.pos.x.raw as int),
            final(bg).scroll_y as int == -round_raw(self.pos.y.raw as int),
    {
        let mut col: i32 = 0;
        while col < self.size.y
            invariant
                self.wf(),
                bg.wf(),
                self.fits_surface(*bg),
                0 <= col <= self.size.y,
                bg.width == old(bg).width,
                bg.height == old(bg).height,
                bg.scroll_x == old(bg).scroll_x,
                bg.scroll_y == old(bg).scroll_y,
                forall|x: int, y: int|
                    0 <= x < bg.width && 0 <= y < bg.height ==> bg.sub_tile(x, y) == (
                    if x < 2 * self.size.x && y < 2 * col {
                        Self::drawn_cell_value(*self, assets.sheet, x, y)
                    } else {
                        old(bg).sub_tile(x, y)
                    }),
            decreases self.size.y - col,
        {
            let mut row: i32 = 0;
            while row < self.size.x
                invariant
                    self.wf(),
                    bg.wf(),
                    self.fits_surface(*bg),
                    0 <= col < self.size.y,
                    0 <= row <= self.size.x,
                    bg.width == old(bg).width,
                    bg.height == old(bg).height,
                    bg.scroll_x == old(bg).scroll_x,
                    bg.scroll_y == old(bg).scroll_y,
                    forall|x: int, y: int|
                        0 <= x < bg.width && 0 <= y < bg.height ==> bg.sub_tile(x, y) == (
                        if x < 2 * self.size.x && (y < 2 * col || (y < 2 * col + 2 && x < 2
                            * row)) {
                            Self::drawn_cell_value(*self, assets.sheet, x, y)
                        } else {
                            old(bg).sub_tile(x, y)
                        }),
                decreases self.size.x - row,
            {
                let cell = IntVec2 { x: row, y: col };
                let index = self.tile_pos_to_index(cell);
                proof {
                    lemma_row_major_bounds(
                        row as int,
                        col as int,
                        self.size.x as int,
                        self.size.y as int,
                    );
                }
                let target = IntVec2 { x: row * 2, y: col * 2 };
                let block = self.blocks[index];
                match block {
                    MinefieldBlock::Clear => {
                        clear_tile16(bg, target, assets);
                    },
                    MinefieldBlock::Block => {
                        let tile_indices = Tile16Indices([0, 1, 2, 3]);
                        proof {
                            assert(tile_indices.0@ =~= mark_indices(block));
                        }
                        draw_tile16(bg, target, assets, &tile_indices);
                    },
                    MinefieldBlock::Flag => {
                        let tile_indices = Tile16Indices([4, 5, 6, 7]);
                        proof {
                            assert(tile_indices.0@ =~= mark_indices(block));
                        }
                        draw_tile16(bg, target, assets, &tile_indices);
                    },
                    MinefieldBlock::Question => {
                        let tile_indices = Tile16Indices([8, 9, 10, 11]);
                        proof {
                            assert(tile_indices.0@ =~= mark_indices(block));
                        }
                        draw_tile16(bg, target, assets, &tile_indices);
                    },
                }
                proof {
                    let sheet = assets.sheet;
                    assert forall|x: int, y: int|
                        0 <= x < bg.width && 0 <= y < bg.height implies (*bg).sub_tile(x, y) == (
                        if x < 2 * self.size.x && (y < 2 * col || (y < 2 * col + 2 && x < 2 * row
                            + 2)) {
                            Self::drawn_cell_value(*self, sheet, x, y)
                        } else {
                            old(bg).sub_tile(x, y)
                        }) by {
                        if 2 * row <= x < 2 * row + 2 && 2 * col <= y < 2 * col + 2 {
                            vstd::arithmetic::div_mod::lemma_fundamental_div_mod_converse(
                                x,
                                2,
                                row as int,
                                x - 2 * row,
                            );
                            vstd::arithmetic::div_mod::lemma_fundamental_div_mod_converse(
                                y,
                                2,
                                col as int,
                                y - 2 * col,
                            );
                        }
                    }
                }
                row = row + 1;
            }
            col = col + 1;
        }
        let ghost before_scroll = *bg;
        let pos = self.pos.round();
        bg.set_scroll(-pos.x, -pos.y);
        proof {
            assert forall|x: int, y: int|
                0 <= x < bg.width && 0 <= y < bg.height implies (*bg).sub_tile(x, y) == (
                if x < 2 * self.size.x && y < 2 * self.size.y {
                    Self::drawn_cell_value(*self, assets.sheet, x, y)
                } else {
                    old(bg).sub_tile(x, y)
                }) by {
                assert((*bg).sub_tile(x, y) == before_scroll.sub_tile(x, y));
            }
        }
    }

    /// Submits the cursor sprite at its rounded pixel position.
    pub fn show(&self, frame: &mut Frame)
        ensures
            final(frame).sprites@ == old(frame).sprites@.push(
                IntVec2 {
                    x: round_raw(self.cursor.pos.x.raw as int) as i32,
                    y: round_raw(self.cursor.pos.y.raw as int) as i32,
                },
            ),
    {
        self.cursor.show(frame);
    }
}

/// Law: the mark cycle closes after exactly three steps. Applying the
/// secondary action three times to a concealed cell returns it to the
/// state it started in; in particular a concealed, unmarked cell passes
/// through `Flag` and `Question` and is unmarked again.
pub proof fn lemma_cycle_closure(b: MinefieldBlock)
    requires
        !(b is Clear),
    ensures
        next_mark(next_mark(next_mark(b))) == b,
        b is Block ==> next_mark(b) is Flag && next_mark(next_mark(b)) is Question,
{
}

/// Law: a revealed cell is terminal. Once a cell is `Clear`, the primary
/// action leaves every cell and every sub-tile of the surface unchanged —
/// no state change and no redraw.
pub proof fn lemma_reveal_terminal(
    pre: Minefield,
    post: Minefield,
    pre_bg: Background,
    post_bg: Background,
    tile_pos: IntVec2,
)
    requires
        Minefield::in_bounds(pre.size, tile_pos),
        pre.blocks@[Minefield::cell_index(pre.size, tile_pos)] is Clear,
        Minefield::reveal_transition(pre, post, pre_bg, post_bg, tile_pos),
    ensures
        post.blocks@ == pre.blocks@,
        post_bg.tiles@ == pre_bg.tiles@,
{
}

/// Law: a revealed cell is terminal under the secondary action as well:
/// no state change and no redraw.
pub proof fn lemma_cycle_terminal(
    pre: Minefield,
    post: Minefield,
    pre_bg: Background,
    post_bg: Background,
    tile_pos: IntVec2,
    sheet: u16,
)
    requires
        Minefield::in_bounds(pre.size, tile_pos),
        pre.blocks@[Minefield::cell_index(pre.size, tile_pos)] is Clear,
        Minefield::cycle_transition(pre, post, pre_bg, post_bg, tile_pos, sheet),
    ensures
        post.blocks@ == pre.blocks@,
        post_bg.tiles@ == pre_bg.tiles@,
{
}

/// Law: the flag protects. A `Flag` cell subjected to the primary action
/// stays flagged, and nothing is redrawn.
pub proof fn lemma_flag_protects(
    pre: Minefield,
    post: Minefield,
    pre_bg: Background,
    post_bg: Background,
    tile_pos: IntVec2,
)
    requires
        Minefield::in_bounds(pre.size, tile_pos),
        pre.blocks@[Minefield::cell_index(pre.size, tile_pos)] is Flag,
        Minefield::reveal_transition(pre, post, pre_bg, post_bg, tile_pos),
    ensures
        post.blocks@ == pre.blocks@,
        post.blocks@[Minefield::cell_index(pre.size, tile_pos)] is Flag,
        post_bg.tiles@ == pre_bg.tiles@,
{
}

/// Law: movement never pushes the cursor's collision rectangle outside
/// the field's pixel extent. A rejected move leaves the cursor where it
/// was, and an accepted move lands with the rectangle still inside, so a
/// cursor that starts inside the extent stays inside under any input.
pub proof fn lemma_movement_preserves_extent(m: Minefield, input: InputSnapshot)
    requires
        m.wf(),
        m.pos.x.raw <= m.cursor.pos.x.raw,
        m.cursor.pos.x.raw + TILE_SIZE_RAW <= m.pos.x.raw + m.size.x * TILE_SIZE_RAW,
        m.pos.y.raw <= m.cursor.pos.y.raw,
        m.cursor.pos.y.raw + TILE_SIZE_RAW <= m.pos.y.raw + m.size.y * TILE_SIZE_RAW,
    ensures
        ({
            let nx = if Minefield::move_blocked(m, input) {
                m.cursor.pos.x.raw as int
            } else {
                m.cursor.pos.x.raw + Minefield::move_delta_x(input)
            };
            let ny = if Minefield::move_blocked(m, input) {
                m.cursor.pos.y.raw as int
            } else {
                m.cursor.pos.y.raw + Minefield::move_delta_y(input)
            };
            &&& m.pos.x.raw <= nx
            &&& nx + TILE_SIZE_RAW <= m.pos.x.raw + m.size.x * TILE_SIZE_RAW
            &&& m.pos.y.raw <= ny
            &&& ny + TILE_SIZE_RAW <= m.pos.y.raw + m.size.y * TILE_SIZE_RAW
        }),
{
}

/// Law: cursor-to-cell coordinates round-trip. For any cell (row, col) of
/// the field, a cursor anchored at `pos + (col * 16, row * 16)` resolves
/// to exactly that cell.
pub proof fn lemma_cell_coordinate_round_trip(m: Minefield, row: int, col: int)
    requires
        m.wf(),
        0 <= col < m.size.x,
        0 <= row < m.size.y,
        m.cursor.pos.x.raw == m.pos.x.raw + col * TILE_SIZE_RAW,
        m.cursor.pos.y.raw == m.pos.y.raw + row * TILE_SIZE_RAW,
    ensures
        Minefield::cursor_cell_x(m) == col,
        Minefield::cursor_cell_y(m) == row,
{
    lemma_axis_round_trip(col);
    lemma_axis_round_trip(row);
}

/// One axis of the round-trip: a raw offset of `c` super-tiles rounds to
/// the pixel offset `16 * c`, and truncating division by the super-tile
/// size recovers `c`.
proof fn lemma_axis_round_trip(c: int)
    requires
        0 <= c,
    ensures
        div_trunc(round_raw(c * TILE_SIZE_RAW), 16) == c,
{
    vstd::arithmetic::div_mod::lemma_fundamental_div_mod_converse(
        c * TILE_SIZE_RAW + 128,
        256,
        16 * c,
        128,
    );
    assert(round_raw(c * TILE_SIZE_RAW) == 16 * c);
    vstd::arithmetic::div_mod::lemma_div_by_multiple(c, 16);
    assert((c * 16) / 16 == c);
    assert(16 * c == c * 16) by (nonlinear_arith);
}

/// A vector of `count` copies of `value`.
fn repeated<T: Copy>(count: usize, value: T) -> (v: Vec<T>)
    ensures
        v@.len() == count,
        forall|i: int| 0 <= i < count ==> v@[i] == value,
{
    let mut v: Vec<T> = Vec::new();
    while v.len() < count
        invariant
            v@.len() <= count,
            forall|i: int| 0 <= i < v@.len() ==> v@[i] == value,
        decreases count - v@.len(),
    {
        v.push(value);
    }
    v
}

} // verus!
