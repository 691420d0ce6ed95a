//! The coordinate system of the playfield: cell size, boundary
//! constants, the legality predicate for positions, and the basic
//! `Block` value that both the falling figure and the board are made of.

use vstd::prelude::*;

verus! {

/// Side of one square cell, in pixels.
pub const GRID_CELL_SIZE: i16 = 48;

/// Leftmost legal x coordinate of a block (the first of the ten columns).
pub const INIT_GRID: i16 = 717;

/// Rightmost legal x coordinate of a block (the last of the ten columns).
pub const END_GRID: i16 = 1168;

/// Lowest legal y coordinate of a block (the bottom row; y grows downward).
pub const END_GRID_BOTTOM: i16 = 960;

/// One of the four cardinal directions. It serves both as a movement
/// input and as the facing of a figure, which advances one step on
/// every accepted rotation.
#[derive(Clone, Copy, PartialEq, Eq, Structural, Debug)]
pub enum Direction {
    Up,
    Down,
    Left,
    Right,
}

impl Direction {
    /// The opposite direction.
    pub fn inverse(&self) -> (r: Self)
        ensures
            r == match *self {
                Direction::Up => Direction::Down,
                Direction::Down => Direction::Up,
                Direction::Left => Direction::Right,
                Direction::Right => Direction::Left,
            },
    {
        match *self {
            Direction::Up => Direction::Down,
            Direction::Down => Direction::Up,
            Direction::Left => Direction::Right,
            Direction::Right => Direction::Left,
        }
    }
}

/// The colour tag of a block. Each of the seven piece shapes paints its
/// blocks in one fixed colour; how a tag maps to actual pixels is the
/// renderer's business.
#[derive(Clone, Copy, PartialEq, Eq, Structural, Debug)]
pub enum BlockColor {
    Cyan,
    Blue,
    Red,
    Magenta,
    Green,
    Yellow,
    Orange,
}

/// One square cell: a grid position in pixel units plus a colour tag.
/// Blocks are plain values and are copied freely.
#[derive(Clone, Copy, PartialEq, Eq, Structural, Debug)]
pub struct Block {
    pub x: i16,
    pub y: i16,
    pub color: BlockColor,
}

impl Block {
    /// Builds a block at the given cell with the given colour.
    pub fn new(x: i16, y: i16, color: BlockColor) -> (b: Block)
        ensures
            b.x == x && b.y == y && b.color == color,
    {
        Block { x, y, color }
    }

    /// The cell this block occupies, as a pair of mathematical integers.
    pub open spec fn cell(self) -> (int, int) {
        (self.x as int, self.y as int)
    }
}

/// Whether a coordinate pair lies outside the playfield: beyond the
/// column span or below the bottom row. There is no upper check on y,
/// because figures spawn above the visible field and only ever fall.
pub open spec fn spec_illegal_coords(x: int, y: int) -> bool {
    x < INIT_GRID as int || x > END_GRID as int || y > END_GRID_BOTTOM as int
}

/// Runtime check of `spec_illegal_coords`.
pub fn illegal_coords(x: i16, y: i16) -> (r: bool)
    ensures
        r == spec_illegal_coords(x as int, y as int),
{
    x < INIT_GRID || x > END_GRID || y > END_GRID_BOTTOM
}

} // verus!
