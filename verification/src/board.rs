//! The board of locked blocks: collision tests against the stack,
//! landing detection, locking a figure, and clearing full rows with
//! downward compaction.
//!
//! A full row holds ten blocks, one per column. Clearing removes every
//! block of each full row and moves each surviving block down by one
//! cell per full row that lay below it; no two surviving blocks ever
//! meet in one cell.

use vstd::prelude::*;

use crate::geometry::{Block, END_GRID, END_GRID_BOTTOM, INIT_GRID};
use crate::figure::{block_on_grid, fig_blocks, fig_cells_distinct, fig_has_cell, fig_in_bounds, fig_wf, Figure};

verus! {

/// A block the board may hold: on the cell grid, within the column
/// span, and between the top of the field and the bottom row.
pub open spec fn board_block_ok(b: Block) -> bool {
    &&& block_on_grid(b)
    &&& INIT_GRID as int <= b.x as int <= END_GRID as int
    &&& b.y as int <= END_GRID_BOTTOM as int
}

/// No two blocks of the sequence occupy the same cell.
pub open spec fn blocks_distinct(s: Seq<Block>) -> bool {
    forall|i: int, j: int| 0 <= i < j < s.len() ==> s[i].cell() != s[j].cell()
}

/// Well-formedness of the stack of locked blocks.
pub open spec fn board_wf(s: Seq<Block>) -> bool {
    &&& blocks_distinct(s)
    &&& forall|i: int| 0 <= i < s.len() ==> board_block_ok(#[trigger] s[i])
}

/// Whether the figure shares a cell with some locked block.
pub open spec fn collides(s: Seq<Block>, f: Figure) -> bool {
    exists|i: int| 0 <= i < s.len() && fig_has_cell(f, #[trigger] s[i].cell())
}

/// Whether the locked block `b` lies directly below some block of the
/// figure, so that the figure cannot fall one more cell.
pub open spec fn supported_at(f: Figure, b: Block) -> bool {
    ||| f.b0.x == b.x && f.b0.y + 48 == b.y
    ||| f.b1.x == b.x && f.b1.y + 48 == b.y
    ||| f.b2.x == b.x && f.b2.y + 48 == b.y
    ||| f.b3.x == b.x && f.b3.y + 48 == b.y
}

/// Whether the figure has reached its resting place: some block sits
/// in the bottom row, or some locked block lies directly below one of
/// its blocks.
pub open spec fn spec_would_land(f: Figure, s: Seq<Block>) -> bool {
    ||| f.b0.y == END_GRID_BOTTOM
    ||| f.b1.y == END_GRID_BOTTOM
    ||| f.b2.y == END_GRID_BOTTOM
    ||| f.b3.y == END_GRID_BOTTOM
    ||| exists|i: int| 0 <= i < s.len() && supported_at(f, #[trigger] s[i])
}

/// Runtime collision test of a figure against the locked blocks.
pub fn collides_with_board(blocks: &Vec<Block>, f: &Figure) -> (r: bool)
    ensures
        r == collides(blocks@, *f),
{
    let mut i: usize = 0;
    while i < blocks.len()
        invariant
            0 <= i <= blocks@.len(),
            forall|k: int| 0 <= k < i ==> !fig_has_cell(*f, #[trigger] blocks@[k].cell()),
        decreases blocks@.len() - i,
    {
        let b = blocks[i];
        let hit = (f.b0.x == b.x && f.b0.y == b.y)
            || (f.b1.x == b.x && f.b1.y == b.y)
            || (f.b2.x == b.x && f.b2.y == b.y)
            || (f.b3.x == b.x && f.b3.y == b.y);
        if hit {
            assert(fig_has_cell(*f, blocks@[i as int].cell()));
            return true;
        }
        i += 1;
    }
    false
}

/// Runtime landing test: bottom row or a locked block directly below.
pub fn would_land(f: &Figure, blocks: &Vec<Block>) -> (r: bool)
    ensures
        r == spec_would_land(*f, blocks@),
{
    if f.some_block_is_in_y(END_GRID_BOTTOM) {
        return true;
    }
    let mut i: usize = 0;
    while i < blocks.len()
        invariant
            0 <= i <= blocks@.len(),
            forall|k: int| 0 <= k < i ==> !supported_at(*f, #[trigger] blocks@[k]),
            !(f.b0.y == END_GRID_BOTTOM || f.b1.y == END_GRID_BOTTOM || f.b2.y == END_GRID_BOTTOM
                || f.b3.y == END_GRID_BOTTOM),
        decreases blocks@.len() - i,
    {
        let b = blocks[i];
        let by = b.y as i32;
        let below = (f.b0.x == b.x && (f.b0.y as i32) + 48 == by)
            || (f.b1.x == b.x && (f.b1.y as i32) + 48 == by)
            || (f.b2.x == b.x && (f.b2.y as i32) + 48 == by)
            || (f.b3.x == b.x && (f.b3.y as i32) + 48 == by);
        if below {
            assert(supported_at(*f, blocks@[i as int]));
            return true;
        }
        i += 1;
    }
    false
}

/// Appends the figure's four blocks to the stack. This is the only way
/// blocks become static, and it keeps the stack free of duplicated
/// cells because the figure was in a legal position.
pub fn lock_figure(blocks: &mut Vec<Block>, f: &Figure)
    requires
        board_wf(old(blocks)@),
        fig_wf(*f),
        !collides(old(blocks)@, *f),
    ensures
        final(blocks)@ == old(blocks)@ + fig_blocks(*f),
        board_wf(final(blocks)@),
{
    let ghost s0 = blocks@;
    blocks.push(f.b0);
    blocks.push(f.b1);
    blocks.push(f.b2);
    blocks.push(f.b3);
    proof {
        assert(blocks@ =~= s0 + fig_blocks(*f));
        assert forall|i: int| 0 <= i < s0.len() implies !fig_has_cell(*f, #[trigger] s0[i].cell()) by {
            assert(!collides(s0, *f));
        }
        assert(fig_cells_distinct(*f));
        assert(fig_in_bounds(*f));
        assert forall|i: int, j: int| 0 <= i < j < blocks@.len() implies
            blocks@[i].cell() != blocks@[j].cell() by {
            if j < s0.len() {
            } else if i < s0.len() {
                assert(!fig_has_cell(*f, s0[i].cell()));
            }
        }
    }
}

/// The number of blocks among the first `n` that sit in row `y`.
pub open spec fn row_count_upto(s: Seq<Block>, y: int, n: int) -> int
    decreases n,
{
    if n <= 0 {
        0
    } else {
        row_count_upto(s, y, n - 1) + if s[n - 1].y as int == y { 1int } else { 0int }
    }
}

/// The number of blocks of the sequence that sit in row `y`.
pub open spec fn row_count(s: Seq<Block>, y: int) -> int {
    row_count_upto(s, y, s.len() as int)
}

/// A full row: one block in each of the ten columns. On a board
/// without duplicated cells, ten blocks in one row fill it.
pub open spec fn row_full(s: Seq<Block>, y: int) -> bool {
    row_count(s, y) == 10
}

/// The number of rows `48 * j` with `j` among the first `n` row
/// indices that are full and lie strictly below `gt`.
pub open spec fn count_full_upto(s: Seq<Block>, gt: int, n: int) -> int
    decreases n,
{
    if n <= 0 {
        0
    } else {
        count_full_upto(s, gt, n - 1)
            + if row_full(s, 48 * (n - 1)) && 48 * (n - 1) > gt { 1int } else { 0int }
    }
}

/// The number of full rows on the board. Rows live at `48 * j` for
/// `j` in `0 ..= 20`.
pub open spec fn count_full(s: Seq<Block>) -> int {
    count_full_upto(s, -1, 21)
}

/// How far a surviving block in row `y` moves down: one cell for every
/// full row strictly below it.
pub open spec fn shift_amount(s: Seq<Block>, y: int) -> int {
    48 * count_full_upto(s, y, 21)
}

/// A surviving block after the clear: same column and colour, moved
/// down by the shift of its row.
pub open spec fn moved_block(s: Seq<Block>, b: Block) -> Block {
    Block { x: b.x, y: (b.y + shift_amount(s, b.y as int)) as i16, color: b.color }
}

/// The cleared board built from the first `n` blocks of `s`, with full
/// rows judged against the snapshot `ctx`.
pub open spec fn clear_rec(ctx: Seq<Block>, s: Seq<Block>, n: int) -> Seq<Block>
    decreases n,
{
    if n <= 0 {
        Seq::empty()
    } else {
        let pre = clear_rec(ctx, s, n - 1);
        if row_full(ctx, s[n - 1].y as int) {
            pre
        } else {
            pre.push(moved_block(ctx, s[n - 1]))
        }
    }
}

/// The board after one clearing pass: blocks of full rows removed, the
/// rest shifted down by one cell per full row below them, in their
/// original order.
pub open spec fn clear_spec(s: Seq<Block>) -> Seq<Block> {
    clear_rec(s, s, s.len() as int)
}

/// Counts are nonnegative and bounded by the number of rows examined.
proof fn lemma_count_full_bounds(s: Seq<Block>, gt: int, n: int)
    requires
        n >= 0,
    ensures
        0 <= count_full_upto(s, gt, n) <= n,
    decreases n,
{
    if n > 0 {
        lemma_count_full_bounds(s, gt, n - 1);
    }
}

/// Row counts are nonnegative.
proof fn lemma_row_count_nonneg(s: Seq<Block>, y: int, n: int)
    requires
        n >= 0,
    ensures
        row_count_upto(s, y, n) >= 0,
    decreases n,
{
    if n > 0 {
        lemma_row_count_nonneg(s, y, n - 1);
    }
}

/// A row with a positive count contains a block.
proof fn lemma_row_count_pos_exists(s: Seq<Block>, y: int, n: int)
    requires
        0 <= n <= s.len(),
        row_count_upto(s, y, n) > 0,
    ensures
        exists|i: int| 0 <= i < n && s[i].y as int == y,
    decreases n,
{
    if n > 0 {
        if s[n - 1].y as int == y {
            assert(0 <= n - 1 < n && s[n - 1].y as int == y);
        } else {
            lemma_row_count_nonneg(s, y, n - 1);
            lemma_row_count_pos_exists(s, y, n - 1);
        }
    }
}

/// On a board whose blocks all lie at or above the bottom row, a row
/// below the field is never full.
proof fn lemma_no_full_row_below_field(s: Seq<Block>, y: int)
    requires
        forall|i: int| 0 <= i < s.len() ==> board_block_ok(#[trigger] s[i]),
        y > END_GRID_BOTTOM as int,
    ensures
        !row_full(s, y),
{
    if row_full(s, y) {
        lemma_row_count_pos_exists(s, y, s.len() as int);
        let i = choose|i: int| 0 <= i < s.len() && s[i].y as int == y;
        assert(board_block_ok(s[i]));
    }
}

/// The difference of two full-row counts with thresholds `48 * a` and
/// `48 * b` counts full rows strictly between them, and there are at
/// most `b - a - 1` row positions there.
proof fn lemma_count_full_diff(s: Seq<Block>, a: int, b: int, n: int)
    requires
        0 <= a < b,
        0 <= n <= 21,
        !row_full(s, 48 * b),
    ensures
        count_full_upto(s, 48 * a, n) - count_full_upto(s, 48 * b, n)
            <= if n - 1 < b { if n - 1 - a >= 0 { n - 1 - a } else { 0int } } else { b - 1 - a },
        count_full_upto(s, 48 * a, n) - count_full_upto(s, 48 * b, n) >= 0,
    decreases n,
{
    if n > 0 {
        lemma_count_full_diff(s, a, b, n - 1);
    }
}

/// Two surviving blocks of distinct cells land on distinct cells after
/// the clear shift.
proof fn lemma_moved_distinct(s: Seq<Block>, p: Block, q: Block)
    requires
        board_block_ok(p),
        board_block_ok(q),
        p.cell() != q.cell(),
        !row_full(s, p.y as int),
        !row_full(s, q.y as int),
    ensures
        moved_block(s, p).cell() != moved_block(s, q).cell(),
{
    if p.x == q.x {
        lemma_count_full_bounds(s, p.y as int, 21);
        lemma_count_full_bounds(s, q.y as int, 21);
        if p.y < q.y {
            let a = p.y as int / 48;
            let b = q.y as int / 48;
            assert(48 * a == p.y as int && 48 * b == q.y as int);
            lemma_count_full_diff(s, a, b, 21);
        } else {
            let a = q.y as int / 48;
            let b = p.y as int / 48;
            assert(48 * a == q.y as int && 48 * b == p.y as int);
            lemma_count_full_diff(s, a, b, 21);
        }
    }
}

/// A surviving block stays a legal board block after the shift: it
/// cannot be pushed below the bottom row, because every full row below
/// it is a row position strictly between it and the region below the
/// field.
proof fn lemma_moved_ok(s: Seq<Block>, b: Block)
    requires
        forall|i: int| 0 <= i < s.len() ==> board_block_ok(#[trigger] s[i]),
        board_block_ok(b),
        !row_full(s, b.y as int),
    ensures
        board_block_ok(moved_block(s, b)),
        moved_block(s, b).x == b.x,
        moved_block(s, b).color == b.color,
        moved_block(s, b).y as int == b.y as int + shift_amount(s, b.y as int),
{
    lemma_count_full_bounds(s, b.y as int, 21);
    let a = b.y as int / 48;
    assert(48 * a == b.y as int);
    lemma_no_full_row_below_field(s, 1008int);
    lemma_count_full_diff(s, a, 21int, 21);
    lemma_count_full_bounds(s, 1008int, 21);
    assert(count_full_upto(s, 1008int, 21) == 0) by {
        lemma_count_full_zero_above(s, 1008int, 21);
    }
}

/// Rows at or above the threshold never enter the count when every
/// examined row position lies below it.
proof fn lemma_count_full_zero_above(s: Seq<Block>, gt: int, n: int)
    requires
        0 <= n,
        48 * (n - 1) <= gt,
    ensures
        count_full_upto(s, gt, n) == 0,
    decreases n,
{
    if n > 0 {
        lemma_count_full_zero_above(s, gt, n - 1);
    }
}

/// The cleared prefix is well formed: every element is a shifted
/// surviving block, and no two elements share a cell.
proof fn lemma_clear_rec_wf(s: Seq<Block>, n: int)
    requires
        board_wf(s),
        0 <= n <= s.len(),
    ensures
        blocks_distinct(clear_rec(s, s, n)),
        forall|j: int| 0 <= j < clear_rec(s, s, n).len()
            ==> exists|i: int| 0 <= i < n && !row_full(s, s[i].y as int)
                && #[trigger] clear_rec(s, s, n)[j] == moved_block(s, s[i]),
        forall|j: int| 0 <= j < clear_rec(s, s, n).len()
            ==> board_block_ok(#[trigger] clear_rec(s, s, n)[j]),
    decreases n,
{
    if n > 0 {
        lemma_clear_rec_wf(s, n - 1);
        let pre = clear_rec(s, s, n - 1);
        let cur = clear_rec(s, s, n);
        if !row_full(s, s[n - 1].y as int) {
            let m = moved_block(s, s[n - 1]);
            lemma_moved_ok(s, s[n - 1]);
            assert forall|j: int| 0 <= j < pre.len() implies pre[j].cell() != m.cell() by {
                let i = choose|i: int| 0 <= i < n - 1 && !row_full(s, s[i].y as int)
                    && pre[j] == moved_block(s, s[i]);
                assert(s[i].cell() != s[n - 1].cell());
                lemma_moved_distinct(s, s[i], s[n - 1]);
            }
            assert forall|j: int| 0 <= j < cur.len() implies
                exists|i: int| 0 <= i < n && !row_full(s, s[i].y as int)
                    && #[trigger] cur[j] == moved_block(s, s[i]) by {
                if j < pre.len() {
                    let i = choose|i: int| 0 <= i < n - 1 && !row_full(s, s[i].y as int)
                        && pre[j] == moved_block(s, s[i]);
                    assert(cur[j] == moved_block(s, s[i]));
                } else {
                    assert(cur[j] == moved_block(s, s[n - 1]));
                }
            }
        }
    }
}

/// A full clearing pass keeps the board well formed.
pub proof fn lemma_clear_spec_wf(s: Seq<Block>)
    requires
        board_wf(s),
    ensures
        board_wf(clear_spec(s)),
{
    lemma_clear_rec_wf(s, s.len() as int);
}

/// Counts how many blocks sit in row `y`.
fn count_in_row(blocks: &Vec<Block>, y: i16) -> (n: usize)
    ensures
        n == row_count(blocks@, y as int),
{
    let mut n: usize = 0;
    let mut i: usize = 0;
    while i < blocks.len()
        invariant
            0 <= i <= blocks@.len(),
            n == row_count_upto(blocks@, y as int, i as int),
            n <= i,
        decreases blocks@.len() - i,
    {
        if blocks[i].y == y {
            n += 1;
        }
        i += 1;
    }
    n
}

/// Whether row `y` is full.
fn is_row_full(blocks: &Vec<Block>, y: i16) -> (r: bool)
    ensures
        r == row_full(blocks@, y as int),
{
    count_in_row(blocks, y) == 10
}

/// Counts the full rows strictly below row `gt`.
fn count_full_below(blocks: &Vec<Block>, gt: i16) -> (n: usize)
    ensures
        n == count_full_upto(blocks@, gt as int, 21),
        n <= 21,
{
    let mut n: usize = 0;
    let mut k: usize = 0;
    while k < 21
        invariant
            0 <= k <= 21,
            n == count_full_upto(blocks@, gt as int, k as int),
            n <= k,
        decreases 21 - k,
    {
        let y: i16 = 48 * (k as i16);
        if is_row_full(blocks, y) && y > gt {
            n += 1;
        }
        k += 1;
    }
    n
}

/// Removes every full row and shifts the surviving blocks down by one
/// cell per full row below them. Returns how many rows were cleared.
pub fn clear_rows(blocks: &mut Vec<Block>) -> (cleared: usize)
    requires
        board_wf(old(blocks)@),
    ensures
        final(blocks)@ == clear_spec(old(blocks)@),
        cleared == count_full(old(blocks)@),
        cleared <= 21,
        board_wf(final(blocks)@),
{
    let ghost s0 = blocks@;
    let cleared = count_full_below(blocks, -1);
    let mut out: Vec<Block> = Vec::new();
    let mut i: usize = 0;
    while i < blocks.len()
        invariant
            0 <= i <= blocks@.len(),
            blocks@ == s0,
            board_wf(s0),
            out@ == clear_rec(s0, s0, i as int),
        decreases blocks@.len() - i,
    {
        let b = blocks[i];
        if !is_row_full(blocks, b.y) {
            let sh = count_full_below(blocks, b.y);
            proof {
                lemma_count_full_bounds(s0, b.y as int, 21);
            }
            let nb = Block { x: b.x, y: b.y + 48 * (sh as i16), color: b.color };
            assert(nb == moved_block(s0, b));
            out.push(nb);
        }
        i += 1;
    }
    *blocks = out;
    proof {
        lemma_clear_spec_wf(s0);
    }
    cleared
}


/// The board transform that removing exactly one full row `r` performs:
/// blocks of row `r` disappear, blocks above it move down one cell,
/// blocks below it stay.
pub open spec fn single_clear_rec(s: Seq<Block>, r: int, n: int) -> Seq<Block>
    decreases n,
{
    if n <= 0 {
        Seq::empty()
    } else {
        let pre = single_clear_rec(s, r, n - 1);
        let b = s[n - 1];
        if b.y as int == r {
            pre
        } else if (b.y as int) < r {
            pre.push(Block { x: b.x, y: (b.y + 48) as i16, color: b.color })
        } else {
            pre.push(b)
        }
    }
}

/// With exactly one full row `r`, the count below a threshold is one
/// when `r` lies below it and zero otherwise.
proof fn lemma_count_single(s: Seq<Block>, r: int, gt: int, n: int)
    requires
        row_full(s, r),
        forall|y: int| y != r ==> !row_full(s, y),
        r % 48 == 0,
        0 <= r,
        0 <= n,
    ensures
        count_full_upto(s, gt, n) == if r < 48 * n && r > gt { 1int } else { 0int },
    decreases n,
{
    if n > 0 {
        lemma_count_single(s, r, gt, n - 1);
        if 48 * (n - 1) != r {
            assert(!row_full(s, 48 * (n - 1)));
        }
    }
}

/// The prefixes of a clearing pass with exactly one full row agree
/// with the single-row transform.
proof fn lemma_single_clear_rec(s: Seq<Block>, r: int, n: int)
    requires
        board_wf(s),
        row_full(s, r),
        forall|y: int| y != r ==> !row_full(s, y),
        r % 48 == 0,
        0 <= r <= END_GRID_BOTTOM as int,
        0 <= n <= s.len(),
    ensures
        clear_rec(s, s, n) == single_clear_rec(s, r, n),
    decreases n,
{
    if n > 0 {
        lemma_single_clear_rec(s, r, n - 1);
        let b = s[n - 1];
        let y = b.y as int;
        assert(board_block_ok(b));
        if y != r {
            assert(!row_full(s, y));
            lemma_count_single(s, r, y, 21);
            assert(shift_amount(s, y) == if y < r { 48int } else { 0int });
        }
    }
}

/// When exactly one row is full, one clearing pass removes exactly
/// that row: the cleared count is one, the blocks of row `r` are gone,
/// every block above `r` has moved down one cell, and every block
/// below `r` is untouched.
pub proof fn lemma_single_full_row_clear(s: Seq<Block>, r: int)
    requires
        board_wf(s),
        row_full(s, r),
        forall|y: int| y != r ==> !row_full(s, y),
    ensures
        count_full(s) == 1,
        clear_spec(s) == single_clear_rec(s, r, s.len() as int),
{
    lemma_row_count_nonneg(s, r, s.len() as int);
    lemma_row_count_pos_exists(s, r, s.len() as int);
    let i = choose|i: int| 0 <= i < s.len() && s[i].y as int == r;
    assert(board_block_ok(s[i]));
    lemma_count_single(s, r, -1, 21);
    lemma_single_clear_rec(s, r, s.len() as int);
}

} // verus!
