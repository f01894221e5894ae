use minefield::cursor::{AudioSink, Frame};
use minefield::field::{Minefield, MinefieldBlock, MinefieldItem};
use minefield::fixed::{FixedVec2, IntVec2};
use minefield::render::{Background, SubTile, TileAssets};

fn fresh() -> (Minefield, Background, TileAssets) {
    let m = Minefield::new(IntVec2 { x: 13, y: 8 }, FixedVec2::from_ints(16, 16)).unwrap();
    let bg = Background::new(32, 32);
    (m, bg, TileAssets { sheet: 7 })
}

fn sub_tile_at(bg: &Background, x: i32, y: i32) -> SubTile {
    bg.tiles[(x + y * bg.width) as usize]
}

#[test]
fn new_starts_concealed_and_mineless() {
    let (m, _, _) = fresh();
    assert_eq!(m.blocks.len(), 104);
    assert_eq!(m.mines.len(), 104);
    assert!(m.blocks.iter().all(|b| *b == MinefieldBlock::Block));
    assert!(m.mines.iter().all(|mine| !*mine));
    assert_eq!(m.cursor.pos, FixedVec2::from_ints(16, 16));
}

#[test]
fn new_rejects_negative_and_oversized_fields() {
    assert!(Minefield::new(IntVec2 { x: -1, y: 5 }, FixedVec2::from_ints(0, 0)).is_none());
    assert!(Minefield::new(IntVec2 { x: 5, y: -1 }, FixedVec2::from_ints(0, 0)).is_none());
    assert!(Minefield::new(IntVec2 { x: 600_000, y: 1 }, FixedVec2::from_ints(0, 0)).is_none());
    assert!(Minefield::new(IntVec2 { x: 0, y: 0 }, FixedVec2::from_ints(0, 0)).is_some());
}

#[test]
fn reveal_clears_cell_and_blanks_super_tile() {
    let (mut m, mut bg, assets) = fresh();
    m.draw_minefield(&mut bg, &assets);
    m.remove_tile(&mut bg, IntVec2 { x: 2, y: 1 }, &assets);
    assert_eq!(m.blocks[(2 + 1 * 13) as usize], MinefieldBlock::Clear);
    for (dx, dy) in [(0, 0), (1, 0), (0, 1), (1, 1)] {
        assert_eq!(sub_tile_at(&bg, 4 + dx, 2 + dy), SubTile::Blank);
    }
    // A neighbouring cell keeps its concealed graphics.
    assert_eq!(sub_tile_at(&bg, 6, 2), SubTile::Graphic { sheet: 7, setting: 0 });
}

#[test]
fn reveal_out_of_bounds_is_ignored() {
    let (mut m, mut bg, assets) = fresh();
    let before_tiles = bg.tiles.clone();
    m.remove_tile(&mut bg, IntVec2 { x: 13, y: 0 }, &assets);
    m.remove_tile(&mut bg, IntVec2 { x: 0, y: 8 }, &assets);
    m.remove_tile(&mut bg, IntVec2 { x: -1, y: 0 }, &assets);
    m.remove_tile(&mut bg, IntVec2 { x: 0, y: -1 }, &assets);
    assert!(m.blocks.iter().all(|b| *b == MinefieldBlock::Block));
    assert_eq!(bg.tiles, before_tiles);
}

#[test]
fn revealed_cell_is_terminal() {
    let (mut m, mut bg, assets) = fresh();
    let cell = IntVec2 { x: 0, y: 0 };
    m.remove_tile(&mut bg, cell, &assets);
    assert_eq!(m.blocks[0], MinefieldBlock::Clear);
    let before_tiles = bg.tiles.clone();
    m.remove_tile(&mut bg, cell, &assets);
    assert_eq!(m.blocks[0], MinefieldBlock::Clear);
    assert_eq!(bg.tiles, before_tiles);
    m.cycle_tile_state(&mut bg, cell, &assets);
    assert_eq!(m.blocks[0], MinefieldBlock::Clear);
    assert_eq!(bg.tiles, before_tiles);
}

#[test]
fn flag_protects_against_reveal() {
    let (mut m, mut bg, assets) = fresh();
    let cell = IntVec2 { x: 5, y: 3 };
    m.cycle_tile_state(&mut bg, cell, &assets);
    assert_eq!(m.blocks[(5 + 3 * 13) as usize], MinefieldBlock::Flag);
    let before_tiles = bg.tiles.clone();
    m.remove_tile(&mut bg, cell, &assets);
    assert_eq!(m.blocks[(5 + 3 * 13) as usize], MinefieldBlock::Flag);
    assert_eq!(bg.tiles, before_tiles);
}

#[test]
fn mark_cycle_closes_after_three_steps() {
    let (mut m, mut bg, assets) = fresh();
    let cell = IntVec2 { x: 1, y: 0 };
    let idx = 1usize;
    m.cycle_tile_state(&mut bg, cell, &assets);
    assert_eq!(m.blocks[idx], MinefieldBlock::Flag);
    for (q, setting) in [(0, 0), (1, 0), (0, 1), (1, 1)].iter().zip([4, 5, 6, 7]) {
        assert_eq!(
            sub_tile_at(&bg, 2 + q.0, 0 + q.1),
            SubTile::Graphic { sheet: 7, setting },
        );
    }
    m.cycle_tile_state(&mut bg, cell, &assets);
    assert_eq!(m.blocks[idx], MinefieldBlock::Question);
    assert_eq!(sub_tile_at(&bg, 2, 0), SubTile::Graphic { sheet: 7, setting: 8 });
    m.cycle_tile_state(&mut bg, cell, &assets);
    assert_eq!(m.blocks[idx], MinefieldBlock::Block);
    assert_eq!(sub_tile_at(&bg, 2, 0), SubTile::Graphic { sheet: 7, setting: 0 });
    assert_eq!(sub_tile_at(&bg, 3, 1), SubTile::Graphic { sheet: 7, setting: 3 });
}

#[test]
fn mark_cycle_out_of_bounds_is_ignored() {
    let (mut m, mut bg, assets) = fresh();
    let before_tiles = bg.tiles.clone();
    m.cycle_tile_state(&mut bg, IntVec2 { x: 13, y: 0 }, &assets);
    m.cycle_tile_state(&mut bg, IntVec2 { x: -1, y: -1 }, &assets);
    assert!(m.blocks.iter().all(|b| *b == MinefieldBlock::Block));
    assert_eq!(bg.tiles, before_tiles);
}

#[test]
fn resize_resets_cells_and_mines() {
    let (mut m, mut bg, assets) = fresh();
    m.cycle_tile_state(&mut bg, IntVec2 { x: 0, y: 0 }, &assets);
    m.remove_tile(&mut bg, IntVec2 { x: 1, y: 1 }, &assets);
    m.gen_mines();
    m.set_size(IntVec2 { x: 4, y: 3 });
    assert_eq!(m.size, IntVec2 { x: 4, y: 3 });
    assert_eq!(m.blocks.len(), 12);
    assert_eq!(m.mines.len(), 12);
    assert!(m.blocks.iter().all(|b| *b == MinefieldBlock::Block));
    assert!(m.mines.iter().all(|mine| !*mine));
    // Position and cursor survive the resize.
    assert_eq!(m.pos, FixedVec2::from_ints(16, 16));
    assert_eq!(m.cursor.pos, FixedVec2::from_ints(16, 16));
}

#[test]
fn draw_minefield_draws_states_and_scrolls() {
    let (mut m, mut bg, assets) = fresh();
    m.cycle_tile_state(&mut bg, IntVec2 { x: 1, y: 0 }, &assets);
    m.remove_tile(&mut bg, IntVec2 { x: 2, y: 0 }, &assets);
    let mut redrawn = Background::new(32, 32);
    m.draw_minefield(&mut redrawn, &assets);
    assert_eq!(sub_tile_at(&redrawn, 0, 0), SubTile::Graphic { sheet: 7, setting: 0 });
    assert_eq!(sub_tile_at(&redrawn, 1, 1), SubTile::Graphic { sheet: 7, setting: 3 });
    assert_eq!(sub_tile_at(&redrawn, 2, 0), SubTile::Graphic { sheet: 7, setting: 4 });
    assert_eq!(sub_tile_at(&redrawn, 4, 0), SubTile::Blank);
    // Sub-tiles beyond the field stay as they were.
    assert_eq!(sub_tile_at(&redrawn, 26, 0), SubTile::Blank);
    assert_eq!(redrawn.scroll_x, -16);
    assert_eq!(redrawn.scroll_y, -16);
}

#[test]
fn set_pos_scrolls_and_carries_cursor() {
    let (mut m, mut bg, _) = fresh();
    m.set_pos(&mut bg, FixedVec2::from_ints(24, 8));
    assert_eq!(m.pos, FixedVec2::from_ints(24, 8));
    assert_eq!(bg.scroll_x, -24);
    assert_eq!(bg.scroll_y, -8);
    // The cursor moved by the same delta (+8, -8) and stays over the
    // same cell of the field.
    assert_eq!(m.cursor.pos, FixedVec2::from_ints(24, 8));
    assert_eq!(m.tile_under_cursor(), IntVec2 { x: 0, y: 0 });
}

#[test]
fn set_pos_handles_negative_origins() {
    let (mut m, mut bg, _) = fresh();
    m.set_pos(&mut bg, FixedVec2::from_ints(-8, -4));
    assert_eq!(bg.scroll_x, 8);
    assert_eq!(bg.scroll_y, 4);
    // The cursor was on the origin and is carried along with it.
    assert_eq!(m.cursor.pos, FixedVec2::from_ints(-8, -4));
}

#[test]
fn show_submits_rounded_cursor_sprite() {
    let (m, _, _) = fresh();
    let mut frame = Frame::new();
    m.show(&mut frame);
    assert_eq!(frame.sprites.len(), 1);
    assert_eq!(frame.sprites[0], IntVec2 { x: 16, y: 16 });
}

#[test]
fn revealed_items_cover_the_taxonomy() {
    // The revealed-cell taxonomy is storage scaffolding for mine
    // placement; it carries a count only in its `Number` variant.
    let items = [MinefieldItem::Blank, MinefieldItem::Number(8), MinefieldItem::Mine];
    assert!(matches!(items[0], MinefieldItem::Blank));
    assert!(matches!(items[1], MinefieldItem::Number(8)));
    assert!(matches!(items[2], MinefieldItem::Mine));
}

#[test]
fn audio_sink_counts_requests() {
    let mut audio = AudioSink::new();
    assert_eq!(audio.plays, 0);
    audio.play();
    audio.play();
    assert_eq!(audio.plays, 2);
}
