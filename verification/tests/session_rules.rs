//! Rules of the board and of the game session: collision, landing,
//! locking, line clearing with compaction, and the tick and command
//! handlers.

use tetris_core::board::{clear_rows, collides_with_board, lock_figure, would_land};
use tetris_core::game::Command;
use tetris_core::figure::{Figure, PieceType};
use tetris_core::game::GameState;
use tetris_core::geometry::{Block, BlockColor};

/// The ten legal column positions, left to right.
fn columns() -> Vec<i16> {
    (0..10).map(|k| 717 + 48 * k).collect()
}

/// A full row of blocks at height `y`, skipping the given columns.
fn row_at(y: i16, skip: &[i16]) -> Vec<Block> {
    columns()
        .into_iter()
        .filter(|x| !skip.contains(x))
        .map(|x| Block::new(x, y, BlockColor::Red))
        .collect()
}

/// The stick figure moved so that its lowest block sits at `(x, y)`.
fn vertical_stick_at(x: i16, y: i16) -> Figure {
    let mut f = Figure::new(PieceType::Stick);
    let dx = x - 909;
    let dy = y - 192;
    for b in [&mut f.b0, &mut f.b1, &mut f.b2, &mut f.b3] {
        b.x += dx;
        b.y += dy;
    }
    f
}

fn sorted_cells(blocks: &[Block]) -> Vec<(i16, i16)> {
    let mut v: Vec<(i16, i16)> = blocks.iter().map(|b| (b.x, b.y)).collect();
    v.sort();
    v
}

#[test]
fn collision_is_exact_cell_equality() {
    let f = Figure::new(PieceType::T);
    let clear = vec![Block::new(717, 960, BlockColor::Red)];
    assert!(!collides_with_board(&clear, &f));
    // The T piece covers (957, 96).
    let hit = vec![Block::new(957, 96, BlockColor::Blue)];
    assert!(collides_with_board(&hit, &f));
}

#[test]
fn landing_at_the_bottom_row() {
    let empty: Vec<Block> = vec![];
    let f = vertical_stick_at(909, 960);
    assert!(would_land(&f, &empty));
    let above = vertical_stick_at(909, 912);
    assert!(!would_land(&above, &empty));
}

#[test]
fn landing_on_the_stack() {
    let stack = vec![Block::new(909, 960, BlockColor::Green)];
    let f = vertical_stick_at(909, 912);
    assert!(would_land(&f, &stack));
    // One column aside, the same figure keeps falling.
    let aside = vertical_stick_at(957, 912);
    assert!(!would_land(&aside, &stack));
}

#[test]
fn locking_appends_the_four_blocks() {
    let mut blocks = vec![Block::new(717, 960, BlockColor::Red)];
    let f = vertical_stick_at(909, 960);
    lock_figure(&mut blocks, &f);
    assert_eq!(blocks.len(), 5);
    assert_eq!(
        sorted_cells(&blocks),
        vec![(717, 960), (909, 816), (909, 864), (909, 912), (909, 960)]
    );
}

#[test]
fn clearing_an_empty_board_does_nothing() {
    let mut blocks: Vec<Block> = vec![];
    assert_eq!(clear_rows(&mut blocks), 0);
    assert!(blocks.is_empty());
}

#[test]
fn nine_blocks_do_not_clear() {
    let mut blocks = row_at(960, &[1149]);
    assert_eq!(clear_rows(&mut blocks), 0);
    assert_eq!(blocks.len(), 9);
}

#[test]
fn one_full_row_clears_and_shifts_the_rows_above() {
    // A full bottom row, one block in the row above it, and one block
    // far above: exactly the bottom row goes, the others drop a cell.
    let mut blocks = row_at(960, &[]);
    blocks.push(Block::new(765, 912, BlockColor::Green));
    blocks.push(Block::new(813, 480, BlockColor::Blue));
    let cleared = clear_rows(&mut blocks);
    assert_eq!(cleared, 1);
    assert_eq!(sorted_cells(&blocks), vec![(765, 960), (813, 528)]);
}

#[test]
fn stick_completes_a_row_and_clears_it() {
    // Nine columns of row 912 are filled; a vertical stick locks its
    // lowest block into the free column of that row. The clearing
    // pass removes all ten blocks of row 912 and drops the stick's
    // other three blocks one cell.
    let mut blocks = row_at(912, &[1149]);
    let stick = vertical_stick_at(1149, 912);
    lock_figure(&mut blocks, &stick);
    assert_eq!(blocks.len(), 13);
    let cleared = clear_rows(&mut blocks);
    assert_eq!(cleared, 1);
    assert_eq!(
        sorted_cells(&blocks),
        vec![(1149, 816), (1149, 864), (1149, 912)]
    );
}

#[test]
fn two_adjacent_full_rows_clear_together() {
    let mut blocks = row_at(960, &[]);
    blocks.extend(row_at(912, &[]));
    blocks.push(Block::new(909, 864, BlockColor::Cyan));
    let cleared = clear_rows(&mut blocks);
    assert_eq!(cleared, 2);
    assert_eq!(sorted_cells(&blocks), vec![(909, 960)]);
}

#[test]
fn separated_full_rows_shift_by_the_rows_below_each_block() {
    // Full rows at 960 and 864; survivors at 912 and 816 drop by one
    // and two cells respectively.
    let mut blocks = row_at(960, &[]);
    blocks.extend(row_at(864, &[]));
    blocks.push(Block::new(717, 912, BlockColor::Green));
    blocks.push(Block::new(765, 816, BlockColor::Blue));
    let cleared = clear_rows(&mut blocks);
    assert_eq!(cleared, 2);
    assert_eq!(sorted_cells(&blocks), vec![(717, 960), (765, 912)]);
}

#[test]
fn a_completely_full_field_clears_everything() {
    let mut blocks: Vec<Block> = vec![];
    for k in 1..=20 {
        blocks.extend(row_at(48 * k, &[]));
    }
    assert_eq!(blocks.len(), 200);
    let cleared = clear_rows(&mut blocks);
    assert_eq!(cleared, 20);
    assert!(blocks.is_empty());
}

#[test]
fn no_two_static_blocks_share_a_cell_through_lock_and_clear() {
    let mut blocks = row_at(912, &[1149]);
    blocks.extend(row_at(864, &[1149, 1101]));
    let stick = vertical_stick_at(1149, 912);
    lock_figure(&mut blocks, &stick);
    clear_rows(&mut blocks);
    let mut cells = sorted_cells(&blocks);
    let before = cells.len();
    cells.dedup();
    assert_eq!(cells.len(), before);
}

#[test]
fn new_session_is_blank_with_a_seven_piece_queue() {
    let g = GameState::new();
    assert_eq!(g.score(), 0);
    assert!(!g.is_game_over());
    assert!(!g.is_paused());
    assert!(g.active_figure().is_none());
    assert!(g.held_figure().is_none());
    assert!(g.static_blocks().is_empty());
    assert_eq!(g.queue_len(), 7);
    for i in 0..7 {
        let f = g.queue_figure(i);
        assert_eq!(f, Figure::new(f.piece_type));
    }
}

#[test]
fn first_tick_spawns_and_keeps_the_queue_at_seven() {
    let mut g = GameState::new();
    let head = g.queue_figure(0);
    let second = g.queue_figure(1);
    g.tick();
    assert_eq!(g.active_figure(), Some(head));
    assert_eq!(g.queue_len(), 7);
    assert_eq!(g.queue_figure(0), second);
}

#[test]
fn gravity_moves_the_figure_after_sixty_steps() {
    let mut g = GameState::new();
    g.tick();
    let f0 = g.active_figure().unwrap();
    // The fall timer starts at zero and gravity fires when it has
    // counted sixty un-paused steps.
    for _ in 0..60 {
        g.tick();
        assert_eq!(g.active_figure(), Some(f0));
    }
    g.tick();
    let f1 = g.active_figure().unwrap();
    assert_eq!(f1.b0.x, f0.b0.x);
    assert_eq!(f1.b0.y, f0.b0.y + 48);
}

#[test]
fn pause_suspends_gravity_but_not_commands() {
    let mut g = GameState::new();
    g.tick();
    let f0 = g.active_figure().unwrap();
    g.toggle_pause();
    assert!(g.is_paused());
    for _ in 0..200 {
        g.tick();
    }
    assert_eq!(g.active_figure(), Some(f0));
    // Movement still answers while paused.
    g.move_left();
    let f1 = g.active_figure().unwrap();
    assert_eq!(f1.b0.x, f0.b0.x - 48);
    g.toggle_pause();
    assert!(!g.is_paused());
}

#[test]
fn paused_ticks_change_nothing_even_with_a_landed_figure() {
    let mut g = GameState::new();
    g.tick();
    // Drop the figure until it rests at the bottom of the field.
    loop {
        let before = g.active_figure().unwrap();
        g.soft_drop();
        if g.active_figure() == Some(before) {
            break;
        }
    }
    let resting = g.active_figure().unwrap();
    g.toggle_pause();
    for _ in 0..120 {
        g.tick();
    }
    // Not locked, not moved: the paused tick is a complete no-op.
    assert_eq!(g.active_figure(), Some(resting));
    assert!(g.static_blocks().is_empty());
    g.toggle_pause();
    g.tick();
    // The first un-paused tick locks the landed figure.
    assert!(g.active_figure().is_none());
    assert_eq!(g.static_blocks().len(), 4);
}

#[test]
fn moves_against_the_wall_leave_the_figure_identical() {
    let mut g = GameState::new();
    g.tick();
    for _ in 0..20 {
        g.move_left();
    }
    let at_wall = g.active_figure().unwrap();
    g.move_left();
    assert_eq!(g.active_figure(), Some(at_wall));
    for _ in 0..20 {
        g.move_right();
    }
    let at_right = g.active_figure().unwrap();
    g.move_right();
    assert_eq!(g.active_figure(), Some(at_right));
}

#[test]
fn soft_drop_moves_one_row_down() {
    let mut g = GameState::new();
    g.tick();
    let f0 = g.active_figure().unwrap();
    g.soft_drop();
    let f1 = g.active_figure().unwrap();
    assert_eq!(f1.b0.x, f0.b0.x);
    assert_eq!(f1.b0.y, f0.b0.y + 48);
}

#[test]
fn rotation_command_changes_only_the_figure() {
    let mut g = GameState::new();
    g.tick();
    let f0 = g.active_figure().unwrap();
    g.rotate();
    let f1 = g.active_figure().unwrap();
    if f0.piece_type == PieceType::Square {
        assert_eq!(f1, f0);
    } else {
        assert_ne!(f1.rotation, f0.rotation);
    }
    assert_eq!(g.queue_len(), 7);
    assert_eq!(g.score(), 0);
}

#[test]
fn hold_banks_the_active_shape_and_then_swaps() {
    let mut g = GameState::new();
    g.tick();
    let active = g.active_figure().unwrap();
    let head = g.queue_figure(0);
    g.hold_swap();
    // First use: the active shape is banked at its spawn layout and
    // the queue's head becomes active.
    assert_eq!(g.held_figure(), Some(Figure::new(active.piece_type)));
    assert_eq!(g.active_figure(), Some(head));
    assert_eq!(g.queue_len(), 7);

    // Second use: active and held swap shapes; the queue is untouched.
    let queue_before: Vec<Figure> = (0..7).map(|i| g.queue_figure(i)).collect();
    g.hold_swap();
    assert_eq!(g.held_figure(), Some(Figure::new(head.piece_type)));
    assert_eq!(g.active_figure(), Some(Figure::new(active.piece_type)));
    let queue_after: Vec<Figure> = (0..7).map(|i| g.queue_figure(i)).collect();
    assert_eq!(queue_after, queue_before);
}

#[test]
fn stacking_to_the_top_ends_the_game_and_ticks_become_noops() {
    let mut g = GameState::new();
    let mut steps = 0;
    while !g.is_game_over() {
        g.tick();
        g.soft_drop();
        steps += 1;
        assert!(steps < 20000, "the stack never reached the top");
    }
    let score = g.score();
    let board = g.static_blocks().clone();
    let held = g.held_figure();
    for _ in 0..10 {
        g.tick();
    }
    assert!(g.is_game_over());
    assert_eq!(g.score(), score);
    assert_eq!(*g.static_blocks(), board);
    assert_eq!(g.held_figure(), held);
}

#[test]
fn reset_clears_score_board_held_and_game_over() {
    let mut g = GameState::new();
    let mut steps = 0;
    while !g.is_game_over() {
        g.tick();
        g.soft_drop();
        steps += 1;
        assert!(steps < 20000, "the stack never reached the top");
    }
    g.hold_swap(); // ignored: the game is over
    g.reset();
    assert_eq!(g.score(), 0);
    assert!(g.static_blocks().is_empty());
    assert!(g.held_figure().is_none());
    assert!(g.active_figure().is_none());
    assert!(!g.is_game_over());
    assert_eq!(g.queue_len(), 7);
    // The session plays on after the reset.
    g.tick();
    assert!(g.active_figure().is_some());
}

#[test]
fn commands_are_ignored_after_game_over_except_pause_and_reset() {
    let mut g = GameState::new();
    let mut steps = 0;
    while !g.is_game_over() {
        g.tick();
        g.soft_drop();
        steps += 1;
        assert!(steps < 20000, "the stack never reached the top");
    }
    let board = g.static_blocks().clone();
    let active = g.active_figure();
    g.move_left();
    g.move_right();
    g.soft_drop();
    g.rotate();
    g.hold_swap();
    assert_eq!(g.active_figure(), active);
    assert_eq!(*g.static_blocks(), board);
    g.toggle_pause();
    assert!(g.is_paused());
    g.toggle_pause();
}

#[test]
fn handle_command_dispatches_like_the_direct_calls() {
    let mut g = GameState::new();
    g.tick();
    let f0 = g.active_figure().unwrap();
    g.handle_command(Command::MoveLeft);
    assert_eq!(g.active_figure().unwrap().b0.x, f0.b0.x - 48);
    g.handle_command(Command::MoveRight);
    assert_eq!(g.active_figure().unwrap().b0.x, f0.b0.x);
    g.handle_command(Command::SoftDrop);
    assert_eq!(g.active_figure().unwrap().b0.y, f0.b0.y + 48);
    g.handle_command(Command::TogglePause);
    assert!(g.is_paused());
    g.handle_command(Command::TogglePause);
    g.handle_command(Command::Reset);
    assert_eq!(g.score(), 0);
    assert!(g.active_figure().is_none());
}
