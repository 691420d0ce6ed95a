//! Rules of the geometry and of the falling figure: boundaries,
//! direction handling, spawn layouts, and the rotation engine.

use tetris_core::figure::{Figure, PieceType};
use tetris_core::geometry::{illegal_coords, Block, BlockColor, Direction};
use tetris_core::geometry::{END_GRID, END_GRID_BOTTOM, GRID_CELL_SIZE, INIT_GRID};

fn cells_sorted(f: &Figure) -> Vec<(i16, i16)> {
    let mut v = vec![
        (f.b0.x, f.b0.y),
        (f.b1.x, f.b1.y),
        (f.b2.x, f.b2.y),
        (f.b3.x, f.b3.y),
    ];
    v.sort();
    v
}

const ALL_PIECES: [PieceType; 7] = [
    PieceType::T,
    PieceType::Square,
    PieceType::Stick,
    PieceType::LL,
    PieceType::LR,
    PieceType::ZL,
    PieceType::ZR,
];

#[test]
fn grid_constants() {
    assert_eq!(GRID_CELL_SIZE, 48);
    assert_eq!(INIT_GRID, 717);
    assert_eq!(END_GRID, 1168);
    assert_eq!(END_GRID_BOTTOM, 960);
}

#[test]
fn boundary_legality() {
    assert!(!illegal_coords(INIT_GRID, 48));
    assert!(!illegal_coords(END_GRID, 48));
    assert!(!illegal_coords(909, END_GRID_BOTTOM));
    assert!(illegal_coords(INIT_GRID - 1, 48));
    assert!(illegal_coords(END_GRID + 1, 48));
    assert!(illegal_coords(909, END_GRID_BOTTOM + 1));
    // No upper bound on a row above the field: figures spawn there.
    assert!(!illegal_coords(909, -96));
}

#[test]
fn direction_inverse() {
    assert_eq!(Direction::Up.inverse(), Direction::Down);
    assert_eq!(Direction::Down.inverse(), Direction::Up);
    assert_eq!(Direction::Left.inverse(), Direction::Right);
    assert_eq!(Direction::Right.inverse(), Direction::Left);
}

#[test]
fn block_new_fields() {
    let b = Block::new(717, 960, BlockColor::Red);
    assert_eq!(b.x, 717);
    assert_eq!(b.y, 960);
    assert_eq!(b.color, BlockColor::Red);
}

#[test]
fn spawn_layouts_match_catalog() {
    let t = Figure::new(PieceType::T);
    assert_eq!(t.rotation, Direction::Up);
    assert_eq!(t.b0.color, BlockColor::Cyan);
    assert_eq!(
        cells_sorted(&t),
        vec![(909, 96), (957, 48), (957, 96), (1005, 96)]
    );

    let sq = Figure::new(PieceType::Square);
    assert_eq!(sq.b0.color, BlockColor::Blue);
    assert_eq!(
        cells_sorted(&sq),
        vec![(909, 48), (909, 96), (957, 48), (957, 96)]
    );

    let stick = Figure::new(PieceType::Stick);
    assert_eq!(stick.b0.color, BlockColor::Red);
    assert_eq!(
        cells_sorted(&stick),
        vec![(909, 48), (909, 96), (909, 144), (909, 192)]
    );

    let lr = Figure::new(PieceType::LR);
    assert_eq!(lr.b0.color, BlockColor::Magenta);
    assert_eq!(
        cells_sorted(&lr),
        vec![(909, 48), (909, 96), (909, 144), (957, 144)]
    );

    let ll = Figure::new(PieceType::LL);
    assert_eq!(ll.b0.color, BlockColor::Green);
    assert_eq!(
        cells_sorted(&ll),
        vec![(909, 144), (957, 48), (957, 96), (957, 144)]
    );

    let zl = Figure::new(PieceType::ZL);
    assert_eq!(zl.b0.color, BlockColor::Yellow);
    assert_eq!(
        cells_sorted(&zl),
        vec![(909, 48), (957, 48), (957, 96), (1005, 96)]
    );

    let zr = Figure::new(PieceType::ZR);
    assert_eq!(zr.b0.color, BlockColor::Orange);
    assert_eq!(
        cells_sorted(&zr),
        vec![(861, 96), (909, 48), (909, 96), (957, 48)]
    );
}

#[test]
fn square_rotation_is_a_noop() {
    let mut f = Figure::new(PieceType::Square);
    let before = f;
    f.rotate();
    assert_eq!(f, before);
    f.rotate();
    f.rotate();
    assert_eq!(f, before);
}

#[test]
fn four_rotations_close_the_cycle() {
    for t in ALL_PIECES {
        let mut f = Figure::new(t);
        let cells_before = cells_sorted(&f);
        let rotation_before = f.rotation;
        let pivot_before = (f.b0.x, f.b0.y);
        for _ in 0..4 {
            f.rotate();
        }
        assert_eq!(f.rotation, rotation_before, "{:?}", t);
        assert_eq!((f.b0.x, f.b0.y), pivot_before, "{:?}", t);
        assert_eq!(cells_sorted(&f), cells_before, "{:?}", t);
    }
}

#[test]
fn single_rotation_advances_the_facing_clockwise() {
    for t in ALL_PIECES {
        let mut f = Figure::new(t);
        f.rotate();
        if t == PieceType::Square {
            assert_eq!(f.rotation, Direction::Up);
        } else {
            assert_eq!(f.rotation, Direction::Right);
        }
        f.rotate();
        if t != PieceType::Square {
            assert_eq!(f.rotation, Direction::Down);
        }
    }
}

#[test]
fn rotation_at_the_wall_is_rejected_whole() {
    // A vertical stick hugging the left wall: turning it flat would
    // reach two columns beyond the field, so nothing may change.
    let mut f = Figure::new(PieceType::Stick);
    f.b0.x -= 192;
    f.b1.x -= 192;
    f.b2.x -= 192;
    f.b3.x -= 192;
    assert_eq!(f.b0.x, 717);
    let before = f;
    f.rotate();
    assert_eq!(f, before);
}

#[test]
fn restore_blocks_reverts_blocks_and_facing() {
    let mut f = Figure::new(PieceType::T);
    let before = f;
    f.rotate();
    assert_ne!(f, before);
    f.restore_blocks(&before);
    assert_eq!(f, before);
}

#[test]
fn some_block_is_in_y_sees_each_row() {
    let f = Figure::new(PieceType::Stick);
    assert!(f.some_block_is_in_y(48));
    assert!(f.some_block_is_in_y(192));
    assert!(!f.some_block_is_in_y(240));
}

#[test]
fn blocks_accessor_lists_pivot_first() {
    let f = Figure::new(PieceType::T);
    let bs = f.blocks();
    assert_eq!(bs[0], f.b0);
    assert_eq!(bs[1], f.b1);
    assert_eq!(bs[2], f.b2);
    assert_eq!(bs[3], f.b3);
}

#[test]
fn piece_type_from_index_follows_catalog_order() {
    assert_eq!(PieceType::from_index(0), PieceType::T);
    assert_eq!(PieceType::from_index(1), PieceType::Square);
    assert_eq!(PieceType::from_index(2), PieceType::Stick);
    assert_eq!(PieceType::from_index(3), PieceType::LR);
    assert_eq!(PieceType::from_index(4), PieceType::LL);
    assert_eq!(PieceType::from_index(5), PieceType::ZL);
    assert_eq!(PieceType::from_index(6), PieceType::ZR);
}

#[test]
fn random_figures_are_canonical_spawns() {
    for _ in 0..50 {
        let f = tetris_core::rng::random_figure();
        assert_eq!(f, Figure::new(f.piece_type));
    }
}
