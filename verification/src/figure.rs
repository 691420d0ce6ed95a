//! The seven piece shapes and the falling figure: canonical spawn
//! layouts, the per-shape per-facing rotation transforms, and the
//! well-formedness invariant that ties a figure's four blocks to the
//! layout table of its shape and facing.
//!
//! Rotation follows a fixed-offset scheme: the candidate blocks are
//! computed around the pivot (block 0), and a candidate that leaves the
//! playfield is rejected wholesale, restoring the exact prior figure.

use vstd::prelude::*;

use crate::geometry::{Block, BlockColor, Direction};
use crate::geometry::spec_illegal_coords;

verus! {

/// The seven piece shapes: the T piece, the square, the stick, the two
/// L chiralities and the two Z chiralities.
#[derive(Clone, Copy, PartialEq, Eq, Structural, Debug)]
pub enum PieceType {
    T,
    Square,
    Stick,
    LL,
    LR,
    ZL,
    ZR,
}

/// The fixed colour of each piece shape.
pub open spec fn piece_color(t: PieceType) -> BlockColor {
    match t {
        PieceType::T => BlockColor::Cyan,
        PieceType::Square => BlockColor::Blue,
        PieceType::Stick => BlockColor::Red,
        PieceType::LR => BlockColor::Magenta,
        PieceType::LL => BlockColor::Green,
        PieceType::ZL => BlockColor::Yellow,
        PieceType::ZR => BlockColor::Orange,
    }
}

/// The falling, player-controlled piece: a shape, a facing, and four
/// blocks of which `b0` is the pivot that the rotation transforms are
/// computed around.
#[derive(Clone, Copy, PartialEq, Eq, Structural, Debug)]
pub struct Figure {
    pub piece_type: PieceType,
    pub rotation: Direction,
    pub b0: Block,
    pub b1: Block,
    pub b2: Block,
    pub b3: Block,
}

/// Shorthand for a block at mathematical coordinates, truncated to the
/// machine representation (all coordinates the engine produces fit).
pub open spec fn blk(x: int, y: int, c: BlockColor) -> Block {
    Block { x: x as i16, y: y as i16, color: c }
}

/// The facing reached by one accepted rotation: every turning shape
/// advances one step along the cycle Up, Right, Down, Left; the square
/// does not turn.
pub open spec fn next_rotation(t: PieceType, d: Direction) -> Direction {
    match t {
        PieceType::Square => d,
        _ => match d {
            Direction::Up => Direction::Right,
            Direction::Right => Direction::Down,
            Direction::Down => Direction::Left,
            Direction::Left => Direction::Up,
        },
    }
}

/// The lowest pivot row a well-formed figure of the given shape and
/// facing can have. Pieces spawn with their pivot at or below this row
/// and only ever move down, except that the two L chiralities raise
/// their pivot by one cell when turning out of the Left facing and
/// lower it by one when turning out of the Right facing.
pub open spec fn pivot_floor(t: PieceType, d: Direction) -> int {
    match t {
        PieceType::Square => 48,
        PieceType::Stick => 144,
        PieceType::T => 96,
        PieceType::ZL => 96,
        PieceType::ZR => 96,
        PieceType::LL | PieceType::LR => match d {
            Direction::Up | Direction::Right => 144,
            Direction::Down | Direction::Left => 96,
        },
    }
}

/// The unconditional rotation transform: the figure that one rotation
/// step produces, before any legality check. Blocks 1 to 3 are placed
/// at fixed offsets from the pivot; for the two L chiralities the pivot
/// itself moves when turning out of the Left or Right facing.
pub open spec fn spec_rotated(f: Figure) -> Figure {
    let cx = f.b0.x as int;
    let cy = f.b0.y as int;
    match f.piece_type {
        PieceType::Square => f,
        PieceType::T => match f.rotation {
            Direction::Up => Figure {
                rotation: Direction::Right,
                b1: blk(cx, cy - 96, f.b1.color),
                b2: blk(cx, cy - 48, f.b2.color),
                b3: blk(cx + 48, cy - 48, f.b3.color),
                ..f
            },
            Direction::Right => Figure {
                rotation: Direction::Down,
                b1: blk(cx - 48, cy - 48, f.b1.color),
                b2: blk(cx, cy - 48, f.b2.color),
                b3: blk(cx + 48, cy - 48, f.b3.color),
                ..f
            },
            Direction::Down => Figure {
                rotation: Direction::Left,
                b1: blk(cx - 48, cy - 48, f.b1.color),
                b2: blk(cx, cy - 48, f.b2.color),
                b3: blk(cx, cy - 96, f.b3.color),
                ..f
            },
            Direction::Left => Figure {
                rotation: Direction::Up,
                b1: blk(cx - 48, cy, f.b1.color),
                b2: blk(cx, cy - 48, f.b2.color),
                b3: blk(cx + 48, cy, f.b3.color),
                ..f
            },
        },
        PieceType::Stick => match f.rotation {
            Direction::Up => Figure {
                rotation: Direction::Right,
                b1: blk(cx - 96, cy, f.b1.color),
                b2: blk(cx - 48, cy, f.b2.color),
                b3: blk(cx + 48, cy, f.b3.color),
                ..f
            },
            Direction::Right => Figure {
                rotation: Direction::Down,
                b1: blk(cx, cy - 96, f.b1.color),
                b2: blk(cx, cy - 48, f.b2.color),
                b3: blk(cx, cy + 48, f.b3.color),
                ..f
            },
            Direction::Down => Figure {
                rotation: Direction::Left,
                b1: blk(cx + 96, cy, f.b1.color),
                b2: blk(cx - 48, cy, f.b2.color),
                b3: blk(cx + 48, cy, f.b3.color),
                ..f
            },
            Direction::Left => Figure {
                rotation: Direction::Up,
                b1: blk(cx, cy - 96, f.b1.color),
                b2: blk(cx, cy - 48, f.b2.color),
                b3: blk(cx, cy + 48, f.b3.color),
                ..f
            },
        },
        PieceType::LR => match f.rotation {
            Direction::Up => Figure {
                rotation: Direction::Right,
                b1: blk(cx + 48, cy, f.b1.color),
                b2: blk(cx - 48, cy, f.b2.color),
                b3: blk(cx + 48, cy - 48, f.b3.color),
                ..f
            },
            Direction::Right => Figure {
                rotation: Direction::Down,
                b0: blk(cx, cy - 48, f.b0.color),
                b1: blk(cx, cy, f.b1.color),
                b2: blk(cx, cy - 96, f.b2.color),
                b3: blk(cx - 48, cy - 96, f.b3.color),
                ..f
            },
            Direction::Down => Figure {
                rotation: Direction::Left,
                b1: blk(cx + 48, cy, f.b1.color),
                b2: blk(cx - 48, cy, f.b2.color),
                b3: blk(cx - 48, cy + 48, f.b3.color),
                ..f
            },
            Direction::Left => Figure {
                rotation: Direction::Up,
                b0: blk(cx, cy + 48, f.b0.color),
                b1: blk(cx, cy, f.b1.color),
                b2: blk(cx, cy - 48, f.b2.color),
                b3: blk(cx + 48, cy + 48, f.b3.color),
                ..f
            },
        },
        PieceType::LL => match f.rotation {
            Direction::Up => Figure {
                rotation: Direction::Right,
                b1: blk(cx + 48, cy, f.b1.color),
                b2: blk(cx - 48, cy, f.b2.color),
                b3: blk(cx - 48, cy - 48, f.b3.color),
                ..f
            },
            Direction::Right => Figure {
                rotation: Direction::Down,
                b0: blk(cx, cy - 48, f.b0.color),
                b1: blk(cx, cy, f.b1.color),
                b2: blk(cx, cy - 96, f.b2.color),
                b3: blk(cx + 48, cy - 96, f.b3.color),
                ..f
            },
            Direction::Down => Figure {
                rotation: Direction::Left,
                b1: blk(cx + 48, cy, f.b1.color),
                b2: blk(cx - 48, cy, f.b2.color),
                b3: blk(cx + 48, cy + 48, f.b3.color),
                ..f
            },
            Direction::Left => Figure {
                rotation: Direction::Up,
                b0: blk(cx, cy + 48, f.b0.color),
                b1: blk(cx, cy, f.b1.color),
                b2: blk(cx, cy - 48, f.b2.color),
                b3: blk(cx - 48, cy + 48, f.b3.color),
                ..f
            },
        },
        PieceType::ZL => match f.rotation {
            Direction::Up | Direction::Down => Figure {
                rotation: if f.rotation is Up { Direction::Right } else { Direction::Left },
                b1: blk(cx, cy - 48, f.b1.color),
                b2: blk(cx + 48, cy - 48, f.b2.color),
                b3: blk(cx + 48, cy - 96, f.b3.color),
                ..f
            },
            Direction::Left | Direction::Right => Figure {
                rotation: if f.rotation is Left { Direction::Up } else { Direction::Down },
                b1: blk(cx + 48, cy, f.b1.color),
                b2: blk(cx, cy - 48, f.b2.color),
                b3: blk(cx - 48, cy - 48, f.b3.color),
                ..f
            },
        },
        PieceType::ZR => match f.rotation {
            Direction::Up | Direction::Down => Figure {
                rotation: if f.rotation is Up { Direction::Right } else { Direction::Left },
                b1: blk(cx, cy - 48, f.b1.color),
                b2: blk(cx - 48, cy - 48, f.b2.color),
                b3: blk(cx - 48, cy - 96, f.b3.color),
                ..f
            },
            Direction::Left | Direction::Right => Figure {
                rotation: if f.rotation is Left { Direction::Up } else { Direction::Down },
                b1: blk(cx - 48, cy, f.b1.color),
                b2: blk(cx, cy - 48, f.b2.color),
                b3: blk(cx + 48, cy - 48, f.b3.color),
                ..f
            },
        },
    }
}

/// The figure moved whole by `(dx, dy)` cells worth of pixels.
pub open spec fn spec_shifted(f: Figure, dx: int, dy: int) -> Figure {
    Figure {
        b0: blk(f.b0.x + dx, f.b0.y + dy, f.b0.color),
        b1: blk(f.b1.x + dx, f.b1.y + dy, f.b1.color),
        b2: blk(f.b2.x + dx, f.b2.y + dy, f.b2.color),
        b3: blk(f.b3.x + dx, f.b3.y + dy, f.b3.color),
        ..f
    }
}

/// The figure's four blocks, pivot first.
pub open spec fn fig_blocks(f: Figure) -> Seq<Block> {
    seq![f.b0, f.b1, f.b2, f.b3]
}

/// The set of cells the figure covers.
pub open spec fn fig_cell_set(f: Figure) -> Set<(int, int)> {
    set![f.b0.cell(), f.b1.cell(), f.b2.cell(), f.b3.cell()]
}

/// Whether the figure covers the given cell.
pub open spec fn fig_has_cell(f: Figure, c: (int, int)) -> bool {
    f.b0.cell() == c || f.b1.cell() == c || f.b2.cell() == c || f.b3.cell() == c
}

/// The four blocks occupy four different cells.
pub open spec fn fig_cells_distinct(f: Figure) -> bool {
    &&& f.b0.cell() != f.b1.cell()
    &&& f.b0.cell() != f.b2.cell()
    &&& f.b0.cell() != f.b3.cell()
    &&& f.b1.cell() != f.b2.cell()
    &&& f.b1.cell() != f.b3.cell()
    &&& f.b2.cell() != f.b3.cell()
}

/// Every block of the figure lies on a legal playfield position.
pub open spec fn fig_in_bounds(f: Figure) -> bool {
    &&& !spec_illegal_coords(f.b0.x as int, f.b0.y as int)
    &&& !spec_illegal_coords(f.b1.x as int, f.b1.y as int)
    &&& !spec_illegal_coords(f.b2.x as int, f.b2.y as int)
    &&& !spec_illegal_coords(f.b3.x as int, f.b3.y as int)
}

/// A block that sits on the cell grid: its x is congruent to the left
/// column, its y to the row spacing, and it is not above the spawn
/// area's topmost reachable row.
pub open spec fn block_on_grid(b: Block) -> bool {
    &&& (b.x as int) % 48 == 45
    &&& (b.y as int) % 48 == 0
    &&& b.y >= 0
}

/// The cell layout of a shape at a facing, as offsets from the pivot
/// cell `(px, py)`. This is exactly the cell set that the rotation
/// transform into that facing produces, and each spawn layout matches
/// its shape's Up entry.
pub open spec fn layout_cells(t: PieceType, d: Direction, px: int, py: int) -> Set<(int, int)> {
    match t {
        PieceType::Square => set![(px, py), (px, py + 48), (px + 48, py), (px + 48, py + 48)],
        PieceType::T => match d {
            Direction::Up => set![(px, py), (px - 48, py), (px, py - 48), (px + 48, py)],
            Direction::Right => set![(px, py), (px, py - 96), (px, py - 48), (px + 48, py - 48)],
            Direction::Down => set![(px, py), (px - 48, py - 48), (px, py - 48), (px + 48, py - 48)],
            Direction::Left => set![(px, py), (px - 48, py - 48), (px, py - 48), (px, py - 96)],
        },
        PieceType::Stick => match d {
            Direction::Up | Direction::Down => set![(px, py), (px, py - 96), (px, py - 48), (px, py + 48)],
            Direction::Right => set![(px, py), (px - 96, py), (px - 48, py), (px + 48, py)],
            Direction::Left => set![(px, py), (px + 96, py), (px - 48, py), (px + 48, py)],
        },
        PieceType::LR => match d {
            Direction::Up => set![(px, py), (px, py - 48), (px, py - 96), (px + 48, py)],
            Direction::Right => set![(px, py), (px + 48, py), (px - 48, py), (px + 48, py - 48)],
            Direction::Down => set![(px, py), (px, py + 48), (px, py - 48), (px - 48, py - 48)],
            Direction::Left => set![(px, py), (px + 48, py), (px - 48, py), (px - 48, py + 48)],
        },
        PieceType::LL => match d {
            Direction::Up => set![(px, py), (px, py - 48), (px, py - 96), (px - 48, py)],
            Direction::Right => set![(px, py), (px + 48, py), (px - 48, py), (px - 48, py - 48)],
            Direction::Down => set![(px, py), (px, py + 48), (px, py - 48), (px + 48, py - 48)],
            Direction::Left => set![(px, py), (px + 48, py), (px - 48, py), (px + 48, py + 48)],
        },
        PieceType::ZL => match d {
            Direction::Up | Direction::Down => set![(px, py), (px + 48, py), (px, py - 48), (px - 48, py - 48)],
            Direction::Left | Direction::Right => set![(px, py), (px, py - 48), (px + 48, py - 48), (px + 48, py - 96)],
        },
        PieceType::ZR => match d {
            Direction::Up | Direction::Down => set![(px, py), (px - 48, py), (px, py - 48), (px + 48, py - 48)],
            Direction::Left | Direction::Right => set![(px, py), (px, py - 48), (px - 48, py - 48), (px - 48, py - 96)],
        },
    }
}

/// Well-formedness of a figure: its blocks sit on the grid inside the
/// playfield, carry the shape's colour, occupy four distinct cells that
/// form exactly the shape's layout at its facing, and its pivot is not
/// above the floor row for that shape and facing.
pub open spec fn fig_wf(f: Figure) -> bool {
    &&& fig_in_bounds(f)
    &&& block_on_grid(f.b0)
    &&& block_on_grid(f.b1)
    &&& block_on_grid(f.b2)
    &&& block_on_grid(f.b3)
    &&& f.b0.color == piece_color(f.piece_type)
    &&& f.b1.color == piece_color(f.piece_type)
    &&& f.b2.color == piece_color(f.piece_type)
    &&& f.b3.color == piece_color(f.piece_type)
    &&& fig_cells_distinct(f)
    &&& f.b0.y as int >= pivot_floor(f.piece_type, f.rotation)
    &&& fig_cell_set(f) == layout_cells(f.piece_type, f.rotation, f.b0.x as int, f.b0.y as int)
}

/// The canonical figure each shape spawns as: facing Up, pivot on the
/// shared spawn columns just below the top of the field.
pub open spec fn spawn_figure(t: PieceType) -> Figure {
    match t {
        PieceType::T => Figure {
            piece_type: t,
            rotation: Direction::Up,
            b0: blk(957, 96, BlockColor::Cyan),
            b1: blk(957, 48, BlockColor::Cyan),
            b2: blk(1005, 96, BlockColor::Cyan),
            b3: blk(909, 96, BlockColor::Cyan),
        },
        PieceType::Square => Figure {
            piece_type: t,
            rotation: Direction::Up,
            b0: blk(909, 48, BlockColor::Blue),
            b1: blk(909, 96, BlockColor::Blue),
            b2: blk(957, 48, BlockColor::Blue),
            b3: blk(957, 96, BlockColor::Blue),
        },
        PieceType::Stick => Figure {
            piece_type: t,
            rotation: Direction::Up,
            b0: blk(909, 144, BlockColor::Red),
            b1: blk(909, 96, BlockColor::Red),
            b2: blk(909, 192, BlockColor::Red),
            b3: blk(909, 48, BlockColor::Red),
        },
        PieceType::LR => Figure {
            piece_type: t,
            rotation: Direction::Up,
            b0: blk(909, 144, BlockColor::Magenta),
            b1: blk(909, 48, BlockColor::Magenta),
            b2: blk(909, 96, BlockColor::Magenta),
            b3: blk(957, 144, BlockColor::Magenta),
        },
        PieceType::LL => Figure {
            piece_type: t,
            rotation: Direction::Up,
            b0: blk(957, 144, BlockColor::Green),
            b1: blk(957, 48, BlockColor::Green),
            b2: blk(957, 96, BlockColor::Green),
            b3: blk(909, 144, BlockColor::Green),
        },
        PieceType::ZL => Figure {
            piece_type: t,
            rotation: Direction::Up,
            b0: blk(957, 96, BlockColor::Yellow),
            b1: blk(957, 48, BlockColor::Yellow),
            b2: blk(909, 48, BlockColor::Yellow),
            b3: blk(1005, 96, BlockColor::Yellow),
        },
        PieceType::ZR => Figure {
            piece_type: t,
            rotation: Direction::Up,
            b0: blk(909, 96, BlockColor::Orange),
            b1: blk(909, 48, BlockColor::Orange),
            b2: blk(957, 48, BlockColor::Orange),
            b3: blk(861, 96, BlockColor::Orange),
        },
    }
}

/// Whether a figure is the canonical spawn figure of some shape.
pub open spec fn is_spawn_figure(f: Figure) -> bool {
    exists|t: PieceType| f == spawn_figure(t)
}

/// The shape at each index of the catalog's fixed order.
pub open spec fn piece_type_of_index(n: int) -> PieceType {
    if n == 0 {
        PieceType::T
    } else if n == 1 {
        PieceType::Square
    } else if n == 2 {
        PieceType::Stick
    } else if n == 3 {
        PieceType::LR
    } else if n == 4 {
        PieceType::LL
    } else if n == 5 {
        PieceType::ZL
    } else {
        PieceType::ZR
    }
}

impl PieceType {
    /// The shape at the given catalog index. An index outside the
    /// catalog is a caller's programming error and is ruled out.
    pub fn from_index(n: u32) -> (t: PieceType)
        requires
            n < 7,
        ensures
            t == piece_type_of_index(n as int),
    {
        match n {
            0 => PieceType::T,
            1 => PieceType::Square,
            2 => PieceType::Stick,
            3 => PieceType::LR,
            4 => PieceType::LL,
            5 => PieceType::ZL,
            _ => PieceType::ZR,
        }
    }
}

impl Figure {
    /// Builds the canonical spawn figure of the given shape.
    pub fn new(t: PieceType) -> (f: Figure)
        ensures
            f == spawn_figure(t),
            fig_wf(f),
            is_spawn_figure(f),
    {
        let f = match t {
            PieceType::T => Figure {
                piece_type: t,
                rotation: Direction::Up,
                b0: Block::new(957, 96, BlockColor::Cyan),
                b1: Block::new(957, 48, BlockColor::Cyan),
                b2: Block::new(1005, 96, BlockColor::Cyan),
                b3: Block::new(909, 96, BlockColor::Cyan),
            },
            PieceType::Square => Figure {
                piece_type: t,
                rotation: Direction::Up,
                b0: Block::new(909, 48, BlockColor::Blue),
                b1: Block::new(909, 96, BlockColor::Blue),
                b2: Block::new(957, 48, BlockColor::Blue),
                b3: Block::new(957, 96, BlockColor::Blue),
            },
            PieceType::Stick => Figure {
                piece_type: t,
                rotation: Direction::Up,
                b0: Block::new(909, 144, BlockColor::Red),
                b1: Block::new(909, 96, BlockColor::Red),
                b2: Block::new(909, 192, BlockColor::Red),
                b3: Block::new(909, 48, BlockColor::Red),
            },
            PieceType::LR => Figure {
                piece_type: t,
                rotation: Direction::Up,
                b0: Block::new(909, 144, BlockColor::Magenta),
                b1: Block::new(909, 48, BlockColor::Magenta),
                b2: Block::new(909, 96, BlockColor::Magenta),
                b3: Block::new(957, 144, BlockColor::Magenta),
            },
            PieceType::LL => Figure {
                piece_type: t,
                rotation: Direction::Up,
                b0: Block::new(957, 144, BlockColor::Green),
                b1: Block::new(957, 48, BlockColor::Green),
                b2: Block::new(957, 96, BlockColor::Green),
                b3: Block::new(909, 144, BlockColor::Green),
            },
            PieceType::ZL => Figure {
                piece_type: t,
                rotation: Direction::Up,
                b0: Block::new(957, 96, BlockColor::Yellow),
                b1: Block::new(957, 48, BlockColor::Yellow),
                b2: Block::new(909, 48, BlockColor::Yellow),
                b3: Block::new(1005, 96, BlockColor::Yellow),
            },
            PieceType::ZR => Figure {
                piece_type: t,
                rotation: Direction::Up,
                b0: Block::new(909, 96, BlockColor::Orange),
                b1: Block::new(909, 48, BlockColor::Orange),
                b2: Block::new(957, 48, BlockColor::Orange),
                b3: Block::new(861, 96, BlockColor::Orange),
            },
        };
        proof {
            lemma_spawn_wf(t);
        }
        f
    }

    /// The figure's blocks, pivot first.
    pub fn blocks(&self) -> (r: [Block; 4])
        ensures
            r@ == fig_blocks(*self),
    {
        let r = [self.b0, self.b1, self.b2, self.b3];
        proof {
            assert(r@ =~= fig_blocks(*self));
        }
        r
    }

    /// Whether some block of the figure sits in the given row.
    pub fn some_block_is_in_y(&self, y: i16) -> (r: bool)
        ensures
            r <==> (self.b0.y == y || self.b1.y == y || self.b2.y == y || self.b3.y == y),
    {
        self.b0.y == y || self.b1.y == y || self.b2.y == y || self.b3.y == y
    }

    /// Whether every block of the figure lies on a legal position.
    pub fn legal_move(&self) -> (r: bool)
        ensures
            r == fig_in_bounds(*self),
    {
        let ok = !crate::geometry::illegal_coords(self.b0.x, self.b0.y)
            && !crate::geometry::illegal_coords(self.b1.x, self.b1.y)
            && !crate::geometry::illegal_coords(self.b2.x, self.b2.y)
            && !crate::geometry::illegal_coords(self.b3.x, self.b3.y);
        ok
    }

    /// Restores the blocks and the facing recorded in `prev`, keeping
    /// the shape. Used to revert a rejected move or rotation.
    pub fn restore_blocks(&mut self, prev: &Figure)
        ensures
            *final(self) == (Figure { piece_type: old(self).piece_type, ..*prev }),
    {
        self.rotation = prev.rotation;
        self.b0 = prev.b0;
        self.b1 = prev.b1;
        self.b2 = prev.b2;
        self.b3 = prev.b3;
    }

    /// The figure moved whole by `(dx, dy)`, without any legality check.
    pub(crate) fn shifted(&self, dx: i16, dy: i16) -> (r: Figure)
        requires
            fig_wf(*self),
            -48 <= dx <= 48,
            0 <= dy <= 48,
        ensures
            r == spec_shifted(*self, dx as int, dy as int),
    {
        Figure {
            b0: Block::new(self.b0.x + dx, self.b0.y + dy, self.b0.color),
            b1: Block::new(self.b1.x + dx, self.b1.y + dy, self.b1.color),
            b2: Block::new(self.b2.x + dx, self.b2.y + dy, self.b2.color),
            b3: Block::new(self.b3.x + dx, self.b3.y + dy, self.b3.color),
            ..*self
        }
    }

    /// The figure one rotation step would produce, before legality
    /// checks.
    fn rotated_candidate(&self) -> (r: Figure)
        requires
            fig_wf(*self),
        ensures
            r == spec_rotated(*self),
    {
        let cx = self.b0.x;
        let cy = self.b0.y;
        match self.piece_type {
            PieceType::Square => *self,
            PieceType::T => match self.rotation {
                Direction::Up => Figure {
                    rotation: Direction::Right,
                    b1: Block::new(cx, cy - 96, self.b1.color),
                    b2: Block::new(cx, cy - 48, self.b2.color),
                    b3: Block::new(cx + 48, cy - 48, self.b3.color),
                    ..*self
                },
                Direction::Right => Figure {
                    rotation: Direction::Down,
                    b1: Block::new(cx - 48, cy - 48, self.b1.color),
                    b2: Block::new(cx, cy - 48, self.b2.color),
                    b3: Block::new(cx + 48, cy - 48, self.b3.color),
                    ..*self
                },
                Direction::Down => Figure {
                    rotation: Direction::Left,
                    b1: Block::new(cx - 48, cy - 48, self.b1.color),
                    b2: Block::new(cx, cy - 48, self.b2.color),
                    b3: Block::new(cx, cy - 96, self.b3.color),
                    ..*self
                },
                Direction::Left => Figure {
                    rotation: Direction::Up,
                    b1: Block::new(cx - 48, cy, self.b1.color),
                    b2: Block::new(cx, cy - 48, self.b2.color),
                    b3: Block::new(cx + 48, cy, self.b3.color),
                    ..*self
                },
            },
            PieceType::Stick => match self.rotation {
                Direction::Up => Figure {
                    rotation: Direction::Right,
                    b1: Block::new(cx - 96, cy, self.b1.color),
                    b2: Block::new(cx - 48, cy, self.b2.color),
                    b3: Block::new(cx + 48, cy, self.b3.color),
                    ..*self
                },
                Direction::Right => Figure {
                    rotation: Direction::Down,
                    b1: Block::new(cx, cy - 96, self.b1.color),
                    b2: Block::new(cx, cy - 48, self.b2.color),
                    b3: Block::new(cx, cy + 48, self.b3.color),
                    ..*self
                },
                Direction::Down => Figure {
                    rotation: Direction::Left,
                    b1: Block::new(cx + 96, cy, self.b1.color),
                    b2: Block::new(cx - 48, cy, self.b2.color),
                    b3: Block::new(cx + 48, cy, self.b3.color),
                    ..*self
                },
                Direction::Left => Figure {
                    rotation: Direction::Up,
                    b1: Block::new(cx, cy - 96, self.b1.color),
                    b2: Block::new(cx, cy - 48, self.b2.color),
                    b3: Block::new(cx, cy + 48, self.b3.color),
                    ..*self
                },
            },
            PieceType::LR => match self.rotation {
                Direction::Up => Figure {
                    rotation: Direction::Right,
                    b1: Block::new(cx + 48, cy, self.b1.color),
                    b2: Block::new(cx - 48, cy, self.b2.color),
                    b3: Block::new(cx + 48, cy - 48, self.b3.color),
                    ..*self
                },
                Direction::Right => Figure {
                    rotation: Direction::Down,
                    b0: Block::new(cx, cy - 48, self.b0.color),
                    b1: Block::new(cx, cy, self.b1.color),
                    b2: Block::new(cx, cy - 96, self.b2.color),
                    b3: Block::new(cx - 48, cy - 96, self.b3.color),
                    ..*self
                },
                Direction::Down => Figure {
                    rotation: Direction::Left,
                    b1: Block::new(cx + 48, cy, self.b1.color),
                    b2: Block::new(cx - 48, cy, self.b2.color),
                    b3: Block::new(cx - 48, cy + 48, self.b3.color),
                    ..*self
                },
                Direction::Left => Figure {
                    rotation: Direction::Up,
                    b0: Block::new(cx, cy + 48, self.b0.color),
                    b1: Block::new(cx, cy, self.b1.color),
                    b2: Block::new(cx, cy - 48, self.b2.color),
                    b3: Block::new(cx + 48, cy + 48, self.b3.color),
                    ..*self
                },
            },
            PieceType::LL => match self.rotation {
                Direction::Up => Figure {
                    rotation: Direction::Right,
                    b1: Block::new(cx + 48, cy, self.b1.color),
                    b2: Block::new(cx - 48, cy, self.b2.color),
                    b3: Block::new(cx - 48, cy - 48, self.b3.color),
                    ..*self
                },
                Direction::Right => Figure {
                    rotation: Direction::Down,
                    b0: Block::new(cx, cy - 48, self.b0.color),
                    b1: Block::new(cx, cy, self.b1.color),
                    b2: Block::new(cx, cy - 96, self.b2.color),
                    b3: Block::new(cx + 48, cy - 96, self.b3.color),
                    ..*self
                },
                Direction::Down => Figure {
                    rotation: Direction::Left,
                    b1: Block::new(cx + 48, cy, self.b1.color),
                    b2: Block::new(cx - 48, cy, self.b2.color),
                    b3: Block::new(cx + 48, cy + 48, self.b3.color),
                    ..*self
                },
                Direction::Left => Figure {
                    rotation: Direction::Up,
                    b0: Block::new(cx, cy + 48, self.b0.color),
                    b1: Block::new(cx, cy, self.b1.color),
                    b2: Block::new(cx, cy - 48, self.b2.color),
                    b3: Block::new(cx - 48, cy + 48, self.b3.color),
                    ..*self
                },
            },
            PieceType::ZL => match self.rotation {
                Direction::Up | Direction::Down => Figure {
                    rotation: if matches!(self.rotation, Direction::Up) {
                        Direction::Right
                    } else {
                        Direction::Left
                    },
                    b1: Block::new(cx, cy - 48, self.b1.color),
                    b2: Block::new(cx + 48, cy - 48, self.b2.color),
                    b3: Block::new(cx + 48, cy - 96, self.b3.color),
                    ..*self
                },
                Direction::Left | Direction::Right => Figure {
                    rotation: if matches!(self.rotation, Direction::Left) {
                        Direction::Up
                    } else {
                        Direction::Down
                    },
                    b1: Block::new(cx + 48, cy, self.b1.color),
                    b2: Block::new(cx, cy - 48, self.b2.color),
                    b3: Block::new(cx - 48, cy - 48, self.b3.color),
                    ..*self
                },
            },
            PieceType::ZR => match self.rotation {
                Direction::Up | Direction::Down => Figure {
                    rotation: if matches!(self.rotation, Direction::Up) {
                        Direction::Right
                    } else {
                        Direction::Left
                    },
                    b1: Block::new(cx, cy - 48, self.b1.color),
                    b2: Block::new(cx - 48, cy - 48, self.b2.color),
                    b3: Block::new(cx - 48, cy - 96, self.b3.color),
                    ..*self
                },
                Direction::Left | Direction::Right => Figure {
                    rotation: if matches!(self.rotation, Direction::Left) {
                        Direction::Up
                    } else {
                        Direction::Down
                    },
                    b1: Block::new(cx - 48, cy, self.b1.color),
                    b2: Block::new(cx, cy - 48, self.b2.color),
                    b3: Block::new(cx + 48, cy - 48, self.b3.color),
                    ..*self
                },
            },
        }
    }

    /// One rotation step against the playfield boundaries alone: the
    /// candidate figure replaces `self` if all its blocks are legal,
    /// and otherwise the figure is left exactly as it was. Collisions
    /// with locked blocks are the board's business and are checked by
    /// the session, which reverts with `restore_blocks`.
    pub fn rotate(&mut self)
        requires
            fig_wf(*old(self)),
        ensures
            fig_wf(*final(self)),
            fig_in_bounds(spec_rotated(*old(self))) ==> *final(self) == spec_rotated(*old(self)),
            !fig_in_bounds(spec_rotated(*old(self))) ==> *final(self) == *old(self),
    {
        let cand = self.rotated_candidate();
        if cand.legal_move() {
            proof {
                lemma_rotated_wf(*self);
            }
            *self = cand;
        }
    }
}

/// The canonical spawn figure of every shape is well formed.
pub proof fn lemma_spawn_wf(t: PieceType)
    ensures
        fig_wf(spawn_figure(t)),
{
    let f = spawn_figure(t);
    match t {
        PieceType::T => {
            assert(fig_cell_set(f) =~= layout_cells(t, Direction::Up, 957, 96));
        },
        PieceType::Square => {
            assert(fig_cell_set(f) =~= layout_cells(t, Direction::Up, 909, 48));
        },
        PieceType::Stick => {
            assert(fig_cell_set(f) =~= layout_cells(t, Direction::Up, 909, 144));
        },
        PieceType::LR => {
            assert(fig_cell_set(f) =~= layout_cells(t, Direction::Up, 909, 144));
        },
        PieceType::LL => {
            assert(fig_cell_set(f) =~= layout_cells(t, Direction::Up, 957, 144));
        },
        PieceType::ZL => {
            assert(fig_cell_set(f) =~= layout_cells(t, Direction::Up, 957, 96));
        },
        PieceType::ZR => {
            assert(fig_cell_set(f) =~= layout_cells(t, Direction::Up, 909, 96));
        },
    }
}

/// An in-bounds rotation candidate of a well-formed figure is itself
/// well formed.
pub proof fn lemma_rotated_wf(f: Figure)
    requires
        fig_wf(f),
        fig_in_bounds(spec_rotated(f)),
    ensures
        fig_wf(spec_rotated(f)),
{
    let g = spec_rotated(f);
    let px = g.b0.x as int;
    let py = g.b0.y as int;
    match f.piece_type {
        PieceType::T => match f.rotation {
            Direction::Up => assert(fig_cell_set(g) =~= layout_cells(g.piece_type, g.rotation, px, py)),
            Direction::Down => assert(fig_cell_set(g) =~= layout_cells(g.piece_type, g.rotation, px, py)),
            Direction::Left => assert(fig_cell_set(g) =~= layout_cells(g.piece_type, g.rotation, px, py)),
            Direction::Right => assert(fig_cell_set(g) =~= layout_cells(g.piece_type, g.rotation, px, py)),
        },
        PieceType::Square => match f.rotation {
            Direction::Up => assert(fig_cell_set(g) =~= layout_cells(g.piece_type, g.rotation, px, py)),
            Direction::Down => assert(fig_cell_set(g) =~= layout_cells(g.piece_type, g.rotation, px, py)),
            Direction::Left => assert(fig_cell_set(g) =~= layout_cells(g.piece_type, g.rotation, px, py)),
            Direction::Right => assert(fig_cell_set(g) =~= layout_cells(g.piece_type, g.rotation, px, py)),
        },
        PieceType::Stick => match f.rotation {
            Direction::Up => assert(fig_cell_set(g) =~= layout_cells(g.piece_type, g.rotation, px, py)),
            Direction::Down => assert(fig_cell_set(g) =~= layout_cells(g.piece_type, g.rotation, px, py)),
            Direction::Left => assert(fig_cell_set(g) =~= layout_cells(g.piece_type, g.rotation, px, py)),
            Direction::Right => assert(fig_cell_set(g) =~= layout_cells(g.piece_type, g.rotation, px, py)),
        },
        PieceType::LR => match f.rotation {
            Direction::Up => assert(fig_cell_set(g) =~= layout_cells(g.piece_type, g.rotation, px, py)),
            Direction::Down => assert(fig_cell_set(g) =~= layout_cells(g.piece_type, g.rotation, px, py)),
            Direction::Left => assert(fig_cell_set(g) =~= layout_cells(g.piece_type, g.rotation, px, py)),
            Direction::Right => assert(fig_cell_set(g) =~= layout_cells(g.piece_type, g.rotation, px, py)),
        },
        PieceType::LL => match f.rotation {
            Direction::Up => assert(fig_cell_set(g) =~= layout_cells(g.piece_type, g.rotation, px, py)),
            Direction::Down => assert(fig_cell_set(g) =~= layout_cells(g.piece_type, g.rotation, px, py)),
            Direction::Left => assert(fig_cell_set(g) =~= layout_cells(g.piece_type, g.rotation, px, py)),
            Direction::Right => assert(fig_cell_set(g) =~= layout_cells(g.piece_type, g.rotation, px, py)),
        },
        PieceType::ZL => match f.rotation {
            Direction::Up => assert(fig_cell_set(g) =~= layout_cells(g.piece_type, g.rotation, px, py)),
            Direction::Down => assert(fig_cell_set(g) =~= layout_cells(g.piece_type, g.rotation, px, py)),
            Direction::Left => assert(fig_cell_set(g) =~= layout_cells(g.piece_type, g.rotation, px, py)),
            Direction::Right => assert(fig_cell_set(g) =~= layout_cells(g.piece_type, g.rotation, px, py)),
        },
        PieceType::ZR => match f.rotation {
            Direction::Up => assert(fig_cell_set(g) =~= layout_cells(g.piece_type, g.rotation, px, py)),
            Direction::Down => assert(fig_cell_set(g) =~= layout_cells(g.piece_type, g.rotation, px, py)),
            Direction::Left => assert(fig_cell_set(g) =~= layout_cells(g.piece_type, g.rotation, px, py)),
            Direction::Right => assert(fig_cell_set(g) =~= layout_cells(g.piece_type, g.rotation, px, py)),
        },
    }
}

/// A whole-figure shift by a column step and a downward row step keeps
/// a figure well formed, provided the result stays in bounds.
pub proof fn lemma_shifted_wf(f: Figure, dx: int, dy: int)
    requires
        fig_wf(f),
        dx % 48 == 0,
        -48 <= dx <= 48,
        dy == 0 || dy == 48,
        fig_in_bounds(spec_shifted(f, dx, dy)),
    ensures
        fig_wf(spec_shifted(f, dx, dy)),
{
    let g = spec_shifted(f, dx, dy);
    let t = f.piece_type;
    let d = f.rotation;
    let qx = f.b0.x as int;
    let qy = f.b0.y as int;
    let px = g.b0.x as int;
    let py = g.b0.y as int;
    assert(px == qx + dx);
    assert(py == qy + dy);
    assert(fig_cell_set(f).contains(f.b0.cell()));
    assert(fig_cell_set(f).contains(f.b1.cell()));
    assert(fig_cell_set(f).contains(f.b2.cell()));
    assert(fig_cell_set(f).contains(f.b3.cell()));
    assert(layout_cells(t, d, qx, qy).contains(f.b0.cell()));
    assert(layout_cells(t, d, qx, qy).contains(f.b1.cell()));
    assert(layout_cells(t, d, qx, qy).contains(f.b2.cell()));
    assert(layout_cells(t, d, qx, qy).contains(f.b3.cell()));
    match f.piece_type {
        PieceType::T => match f.rotation {
            Direction::Up => assert(fig_cell_set(g) =~= layout_cells(g.piece_type, g.rotation, px, py)),
            Direction::Down => assert(fig_cell_set(g) =~= layout_cells(g.piece_type, g.rotation, px, py)),
            Direction::Left => assert(fig_cell_set(g) =~= layout_cells(g.piece_type, g.rotation, px, py)),
            Direction::Right => assert(fig_cell_set(g) =~= layout_cells(g.piece_type, g.rotation, px, py)),
        },
        PieceType::Square => match f.rotation {
            Direction::Up => assert(fig_cell_set(g) =~= layout_cells(g.piece_type, g.rotation, px, py)),
            Direction::Down => assert(fig_cell_set(g) =~= layout_cells(g.piece_type, g.rotation, px, py)),
            Direction::Left => assert(fig_cell_set(g) =~= layout_cells(g.piece_type, g.rotation, px, py)),
            Direction::Right => assert(fig_cell_set(g) =~= layout_cells(g.piece_type, g.rotation, px, py)),
        },
        PieceType::Stick => match f.rotation {
            Direction::Up => assert(fig_cell_set(g) =~= layout_cells(g.piece_type, g.rotation, px, py)),
            Direction::Down => assert(fig_cell_set(g) =~= layout_cells(g.piece_type, g.rotation, px, py)),
            Direction::Left => assert(fig_cell_set(g) =~= layout_cells(g.piece_type, g.rotation, px, py)),
            Direction::Right => assert(fig_cell_set(g) =~= layout_cells(g.piece_type, g.rotation, px, py)),
        },
        PieceType::LR => match f.rotation {
            Direction::Up => assert(fig_cell_set(g) =~= layout_cells(g.piece_type, g.rotation, px, py)),
            Direction::Down => assert(fig_cell_set(g) =~= layout_cells(g.piece_type, g.rotation, px, py)),
            Direction::Left => assert(fig_cell_set(g) =~= layout_cells(g.piece_type, g.rotation, px, py)),
            Direction::Right => assert(fig_cell_set(g) =~= layout_cells(g.piece_type, g.rotation, px, py)),
        },
        PieceType::LL => match f.rotation {
            Direction::Up => assert(fig_cell_set(g) =~= layout_cells(g.piece_type, g.rotation, px, py)),
            Direction::Down => assert(fig_cell_set(g) =~= layout_cells(g.piece_type, g.rotation, px, py)),
            Direction::Left => assert(fig_cell_set(g) =~= layout_cells(g.piece_type, g.rotation, px, py)),
            Direction::Right => assert(fig_cell_set(g) =~= layout_cells(g.piece_type, g.rotation, px, py)),
        },
        PieceType::ZL => match f.rotation {
            Direction::Up => assert(fig_cell_set(g) =~= layout_cells(g.piece_type, g.rotation, px, py)),
            Direction::Down => assert(fig_cell_set(g) =~= layout_cells(g.piece_type, g.rotation, px, py)),
            Direction::Left => assert(fig_cell_set(g) =~= layout_cells(g.piece_type, g.rotation, px, py)),
            Direction::Right => assert(fig_cell_set(g) =~= layout_cells(g.piece_type, g.rotation, px, py)),
        },
        PieceType::ZR => match f.rotation {
            Direction::Up => assert(fig_cell_set(g) =~= layout_cells(g.piece_type, g.rotation, px, py)),
            Direction::Down => assert(fig_cell_set(g) =~= layout_cells(g.piece_type, g.rotation, px, py)),
            Direction::Left => assert(fig_cell_set(g) =~= layout_cells(g.piece_type, g.rotation, px, py)),
            Direction::Right => assert(fig_cell_set(g) =~= layout_cells(g.piece_type, g.rotation, px, py)),
        },
    }
}

/// Rotating a square figure changes nothing: neither its blocks nor
/// its facing.
pub proof fn lemma_square_rotation_identity(f: Figure)
    requires
        f.piece_type is Square,
    ensures
        spec_rotated(f) == f,
{
}

/// Four rotation steps close the cycle: the figure returns to its
/// original facing, pivot and cell layout. This speaks of the pure
/// transform, so it describes four rotations none of which is rejected.
pub proof fn lemma_rotation_cycle(f: Figure)
    requires
        fig_wf(f),
    ensures
        spec_rotated(spec_rotated(spec_rotated(spec_rotated(f)))).rotation == f.rotation,
        spec_rotated(spec_rotated(spec_rotated(spec_rotated(f)))).b0 == f.b0,
        spec_rotated(spec_rotated(spec_rotated(spec_rotated(f)))).piece_type == f.piece_type,
        fig_cell_set(spec_rotated(spec_rotated(spec_rotated(spec_rotated(f))))) == fig_cell_set(f),
{
    let g = spec_rotated(spec_rotated(spec_rotated(spec_rotated(f))));
    let px = f.b0.x as int;
    let py = f.b0.y as int;
    assert(fig_cell_set(g) =~= layout_cells(f.piece_type, f.rotation, px, py));
}

} // verus!
