use minefield::cursor::AudioSink;
use minefield::field::{InputSnapshot, Minefield, MinefieldBlock, Tri};
use minefield::fixed::{FixedVec2, IntVec2};
use minefield::render::{Background, SubTile, TileAssets};

fn fresh() -> (Minefield, Background, TileAssets, AudioSink) {
    let m = Minefield::new(IntVec2 { x: 13, y: 8 }, FixedVec2::from_ints(16, 16)).unwrap();
    let bg = Background::new(32, 32);
    (m, bg, TileAssets { sheet: 7 }, AudioSink::new())
}

fn idle() -> InputSnapshot {
    InputSnapshot { primary: false, secondary: false, x_tri: Tri::Zero, y_tri: Tri::Zero }
}

fn press_right() -> InputSnapshot {
    InputSnapshot { primary: false, secondary: false, x_tri: Tri::Positive, y_tri: Tri::Zero }
}

fn sub_tile_at(bg: &Background, x: i32, y: i32) -> SubTile {
    bg.tiles[(x + y * bg.width) as usize]
}

#[test]
fn coordinate_round_trip_covers_every_cell() {
    let (mut m, _, _, _) = fresh();
    for row in 0..8 {
        for col in 0..13 {
            m.cursor.set_pos(FixedVec2::from_ints(16 + col * 16, 16 + row * 16));
            assert_eq!(m.tile_under_cursor(), IntVec2 { x: col, y: row });
        }
    }
}

#[test]
fn cursor_just_left_of_a_boundary_rounds_onto_it() {
    // One raw unit below 16 pixels still rounds to pixel 16, so the cell
    // under the cursor is the one the rounded sprite position sits on.
    let (mut m, _, _, _) = fresh();
    m.cursor.set_pos(FixedVec2 {
        x: minefield::fixed::Fixed { raw: 16 * 256 + 16 * 256 - 1 },
        y: minefield::fixed::Fixed { raw: 16 * 256 },
    });
    assert_eq!(m.tile_under_cursor(), IntVec2 { x: 1, y: 0 });
}

#[test]
fn boundary_clamp_blocks_the_move_silently() {
    // Rightmost valid column: x = 16 + 12 * 16 = 208. One more step would
    // put the rectangle's right edge at 240 > 16 + 13 * 16 = 224.
    let (mut m, mut bg, assets, mut audio) = fresh();
    m.cursor.set_pos(FixedVec2::from_ints(208, 16));
    let before_rect = m.cursor.collision_rect();
    m.update(&mut bg, &press_right(), &assets, &mut audio);
    assert_eq!(m.cursor.pos, FixedVec2::from_ints(208, 16));
    assert_eq!(m.cursor.collision_rect(), before_rect);
    assert_eq!(audio.plays, 0);
}

#[test]
fn thirteen_right_presses_stop_at_the_last_column() {
    let (mut m, mut bg, assets, mut audio) = fresh();
    for step in 1..=12 {
        m.update(&mut bg, &press_right(), &assets, &mut audio);
        assert_eq!(m.cursor.pos.x.raw, (16 + step * 16) * 256);
    }
    assert_eq!(m.cursor.pos.x.raw, 208 * 256);
    assert_eq!(audio.plays, 12);
    // The 13th press lands exactly on the bound check and is rejected.
    m.update(&mut bg, &press_right(), &assets, &mut audio);
    assert_eq!(m.cursor.pos.x.raw, 208 * 256);
    assert_eq!(audio.plays, 12);
}

#[test]
fn idle_frame_changes_nothing_and_plays_nothing() {
    let (mut m, mut bg, assets, mut audio) = fresh();
    let before_tiles = bg.tiles.clone();
    m.update(&mut bg, &idle(), &assets, &mut audio);
    assert_eq!(m.cursor.pos, FixedVec2::from_ints(16, 16));
    assert_eq!(bg.tiles, before_tiles);
    assert_eq!(audio.plays, 0);
}

#[test]
fn primary_press_reveals_the_cell_under_the_cursor() {
    let (mut m, mut bg, assets, mut audio) = fresh();
    m.draw_minefield(&mut bg, &assets);
    let press_a = InputSnapshot {
        primary: true,
        secondary: false,
        x_tri: Tri::Positive,
        y_tri: Tri::Zero,
    };
    m.update(&mut bg, &press_a, &assets, &mut audio);
    assert_eq!(m.blocks[0], MinefieldBlock::Clear);
    for (dx, dy) in [(0, 0), (1, 0), (0, 1), (1, 1)] {
        assert_eq!(sub_tile_at(&bg, dx, dy), SubTile::Blank);
    }
    // The action consumed the frame: no movement and no audio even though
    // a direction was held.
    assert_eq!(m.cursor.pos, FixedVec2::from_ints(16, 16));
    assert_eq!(audio.plays, 0);
}

#[test]
fn secondary_press_cycles_the_cell_under_the_cursor() {
    let (mut m, mut bg, assets, mut audio) = fresh();
    m.draw_minefield(&mut bg, &assets);
    let press_b = InputSnapshot {
        primary: false,
        secondary: true,
        x_tri: Tri::Zero,
        y_tri: Tri::Zero,
    };
    for expected in [
        (MinefieldBlock::Flag, [4, 5, 6, 7]),
        (MinefieldBlock::Question, [8, 9, 10, 11]),
        (MinefieldBlock::Block, [0, 1, 2, 3]),
    ] {
        m.update(&mut bg, &press_b, &assets, &mut audio);
        assert_eq!(m.blocks[0], expected.0);
        for (quadrant, (dx, dy)) in [(0, 0), (1, 0), (0, 1), (1, 1)].into_iter().enumerate() {
            assert_eq!(
                sub_tile_at(&bg, dx, dy),
                SubTile::Graphic { sheet: 7, setting: expected.1[quadrant] },
            );
        }
    }
    assert_eq!(audio.plays, 0);
}

#[test]
fn moves_in_all_directions_respect_every_edge() {
    let (mut m, mut bg, assets, mut audio) = fresh();
    let press_up = InputSnapshot {
        primary: false,
        secondary: false,
        x_tri: Tri::Zero,
        y_tri: Tri::Negative,
    };
    // Up from the top-left corner is blocked.
    m.update(&mut bg, &press_up, &assets, &mut audio);
    assert_eq!(m.cursor.pos, FixedVec2::from_ints(16, 16));
    assert_eq!(audio.plays, 0);
    // Down seven times reaches the bottom row; the eighth is blocked.
    let press_down = InputSnapshot {
        primary: false,
        secondary: false,
        x_tri: Tri::Zero,
        y_tri: Tri::Positive,
    };
    for _ in 0..7 {
        m.update(&mut bg, &press_down, &assets, &mut audio);
    }
    assert_eq!(m.cursor.pos, FixedVec2::from_ints(16, 16 + 7 * 16));
    assert_eq!(audio.plays, 7);
    m.update(&mut bg, &press_down, &assets, &mut audio);
    assert_eq!(m.cursor.pos, FixedVec2::from_ints(16, 16 + 7 * 16));
    assert_eq!(audio.plays, 7);
    // A diagonal with one blocked axis is rejected as a whole.
    let press_up_left = InputSnapshot {
        primary: false,
        secondary: false,
        x_tri: Tri::Negative,
        y_tri: Tri::Negative,
    };
    m.update(&mut bg, &press_up_left, &assets, &mut audio);
    assert_eq!(m.cursor.pos, FixedVec2::from_ints(16, 16 + 7 * 16));
    assert_eq!(audio.plays, 7);
}
