//! The game session: the active figure, the held shape, the seven-deep
//! queue of upcoming figures, the stack of locked blocks, the score,
//! and the tick and command handlers that drive them.
//!
//! One `tick` advances the simulation by exactly one logical step at
//! the fixed rate the driver calls it. Commands arrive independently
//! of the tick cadence. An illegal move or rotation is rejected whole:
//! the figure is left exactly as it was.

use vstd::prelude::*;

use crate::board::{
    board_wf, clear_rows, clear_spec, collides, collides_with_board, count_full, lock_figure,
    spec_would_land, would_land,
};
use crate::figure::{
    fig_blocks, fig_in_bounds, fig_wf, is_spawn_figure, lemma_shifted_wf, lemma_spawn_wf,
    spawn_figure, spec_rotated, spec_shifted, Figure, PieceType,
};
use crate::geometry::Block;
use crate::rng::random_figure;

verus! {

/// A discrete player command, handled immediately and independently of
/// the simulation tick.
#[derive(Clone, Copy, PartialEq, Eq, Structural, Debug)]
pub enum Command {
    MoveLeft,
    MoveRight,
    SoftDrop,
    Rotate,
    HoldSwap,
    TogglePause,
    Reset,
}

/// The mathematical state of a session: what the contracts speak of.
#[verifier::ext_equal]
pub struct GameView {
    pub actual: Option<Figure>,
    pub keep: Option<Figure>,
    pub gameover: bool,
    pub counter: int,
    pub pause: bool,
    pub score: int,
    pub board: Seq<Block>,
    pub queue: Seq<Figure>,
}

/// The game session.
pub struct GameState {
    actual_figure: Option<Figure>,
    keep_figure: Option<Figure>,
    gameover: bool,
    counter: u8,
    pause: bool,
    score: u32,
    static_blocks: Vec<Block>,
    next_figures: Vec<Figure>,
}

impl View for GameState {
    type V = GameView;

    closed spec fn view(&self) -> GameView {
        GameView {
            actual: self.actual_figure,
            keep: self.keep_figure,
            gameover: self.gameover,
            counter: self.counter as int,
            pause: self.pause,
            score: self.score as int,
            board: self.static_blocks@,
            queue: self.next_figures@,
        }
    }
}

/// Some locked block has reached the topmost playable row.
pub open spec fn topped_out(s: Seq<Block>) -> bool {
    exists|i: int| 0 <= i < s.len() && #[trigger] s[i].y <= 48
}

/// The figure after an attempted shift: the candidate if it is inside
/// the field and clear of the stack, the unchanged figure otherwise.
pub open spec fn try_shift_fig(f: Figure, s: Seq<Block>, dx: int, dy: int) -> Figure {
    let c = spec_shifted(f, dx, dy);
    if fig_in_bounds(c) && !collides(s, c) {
        c
    } else {
        f
    }
}

/// The figure after an attempted rotation: the rotated candidate if it
/// is inside the field and clear of the stack, the unchanged figure
/// otherwise.
pub open spec fn try_rotate_fig(f: Figure, s: Seq<Block>) -> Figure {
    let c = spec_rotated(f);
    if fig_in_bounds(c) && !collides(s, c) {
        c
    } else {
        f
    }
}

/// Addition capped at the largest score the counter can hold.
pub open spec fn sat_add_score(a: int, b: int) -> int {
    if a + b <= u32::MAX as int {
        a + b
    } else {
        u32::MAX as int
    }
}

/// The deterministic part of one un-paused tick with an active
/// figure: gravity when the fall timer is due, the fall timer's
/// advance, then landing, locking and row clearing. Locking clears
/// the active figure; the next spawn happens on the next tick.
pub open spec fn tick_active(v: GameView) -> GameView {
    match v.actual {
        None => v,
        Some(f0) => {
            let grav_due = v.counter >= 60;
            let f1 = if grav_due {
                try_shift_fig(f0, v.board, 0, 48)
            } else {
                f0
            };
            let c1: int = if grav_due {
                0
            } else {
                v.counter
            };
            let c2: int = c1 + 1;
            if spec_would_land(f1, v.board) {
                let locked = v.board + fig_blocks(f1);
                GameView {
                    actual: None,
                    board: clear_spec(locked),
                    score: sat_add_score(v.score, count_full(locked)),
                    counter: c2,
                    ..v
                }
            } else {
                GameView { actual: Some(f1), counter: c2, ..v }
            }
        },
    }
}

/// What a horizontal move or a soft drop leaves behind: nothing when
/// the game is over or no figure is falling; otherwise the attempted
/// shift, with the fall timer cleared on a soft drop.
pub open spec fn move_post(o: GameView, n: GameView, dx: int, dy: int) -> bool {
    if o.gameover {
        n == o
    } else {
        match o.actual {
            None => n == o,
            Some(f) => n == (GameView {
                actual: Some(try_shift_fig(f, o.board, dx, dy)),
                counter: if dy == 48 { 0int } else { o.counter },
                ..o
            }),
        }
    }
}

/// What a rotation command leaves behind.
pub open spec fn rotate_post(o: GameView, n: GameView) -> bool {
    if o.gameover {
        n == o
    } else {
        match o.actual {
            None => n == o,
            Some(f) => n == (GameView { actual: Some(try_rotate_fig(f, o.board)), ..o }),
        }
    }
}

/// What a hold command leaves behind. With no held shape, the active
/// shape is banked and the queue's head becomes active, the queue
/// being refilled with one fresh spawn figure; with a held shape, the
/// active and held shapes swap, the incoming one redrawn at its
/// canonical spawn layout. A swap whose incoming figure would overlap
/// the stack is rejected whole.
pub open spec fn hold_post(o: GameView, n: GameView) -> bool {
    if o.gameover {
        n == o
    } else {
        match o.actual {
            None => n == o,
            Some(f) => match o.keep {
                None => {
                    if collides(o.board, o.queue[0]) {
                        n == o
                    } else {
                        exists|t: PieceType|
                            n == (GameView {
                                keep: Some(spawn_figure(f.piece_type)),
                                actual: Some(o.queue[0]),
                                queue: o.queue.drop_first().push(#[trigger] spawn_figure(t)),
                                ..o
                            })
                    }
                },
                Some(k) => {
                    if collides(o.board, spawn_figure(k.piece_type)) {
                        n == o
                    } else {
                        n == (GameView {
                            keep: Some(spawn_figure(f.piece_type)),
                            actual: Some(spawn_figure(k.piece_type)),
                            ..o
                        })
                    }
                },
            },
        }
    }
}

/// What a reset leaves behind: empty board, no active or held figure,
/// score zero, game over cleared. The queue, the pause flag and the
/// fall timer are kept.
pub open spec fn reset_post(o: GameView, n: GameView) -> bool {
    n == (GameView {
        actual: None,
        keep: None,
        gameover: false,
        score: 0,
        board: Seq::empty(),
        ..o
    })
}

impl GameState {
    /// The session invariant: a well-formed stack, a seven-deep queue
    /// of well-formed figures, a well-formed active figure clear of
    /// the stack, a well-formed held figure, and a fall timer within
    /// its period.
    pub open spec fn wf(self) -> bool {
        &&& board_wf(self@.board)
        &&& self@.queue.len() == 7
        &&& forall|i: int| 0 <= i < self@.queue.len() ==> fig_wf(#[trigger] self@.queue[i])
        &&& match self@.actual {
            Some(f) => fig_wf(f) && !collides(self@.board, f),
            None => true,
        }
        &&& match self@.keep {
            Some(f) => fig_wf(f),
            None => true,
        }
        &&& 0 <= self@.counter <= 60
    }

    /// Builds a fresh session: empty board, no active or held figure,
    /// score zero, and a queue of seven randomly drawn spawn figures.
    pub fn new() -> (g: GameState)
        ensures
            g.wf(),
            g@.actual is None,
            g@.keep is None,
            !g@.gameover,
            !g@.pause,
            g@.counter == 0,
            g@.score == 0,
            g@.board == Seq::<Block>::empty(),
            g@.queue.len() == 7,
            forall|i: int| 0 <= i < g@.queue.len() ==> is_spawn_figure(#[trigger] g@.queue[i]),
    {
        let mut queue: Vec<Figure> = Vec::new();
        let mut i: usize = 0;
        while i < 7
            invariant
                queue@.len() == i,
                0 <= i <= 7,
                forall|k: int| 0 <= k < i ==> fig_wf(#[trigger] queue@[k]),
                forall|k: int| 0 <= k < i ==> is_spawn_figure(#[trigger] queue@[k]),
            decreases 7 - i,
        {
            queue.push(random_figure());
            i += 1;
        }
        let g = GameState {
            actual_figure: None,
            keep_figure: None,
            gameover: false,
            counter: 0,
            pause: false,
            score: 0,
            static_blocks: Vec::new(),
            next_figures: queue,
        };
        proof {
            assert(g@.board =~= Seq::<Block>::empty());
        }
        g
    }

    /// Advances the simulation by one logical step. When the game is
    /// over or paused nothing happens at all: pausing suspends every
    /// tick transition, gravity, locking and game-over detection
    /// included. Otherwise: when a locked block has reached the top
    /// row the game ends; with no active figure the queue's head
    /// spawns — unless the stack already occupies its cells, which is
    /// board overflow and ends the game instead, since the board never
    /// holds two blocks in one cell and the active figure never
    /// overlaps the stack; with an active figure, gravity, landing,
    /// locking and row clearing run as `tick_active` describes.
    pub fn tick(&mut self)
        requires
            old(self).wf(),
        ensures
            final(self).wf(),
            old(self)@.gameover ==> final(self)@ == old(self)@,
            !old(self)@.gameover && old(self)@.pause ==> final(self)@ == old(self)@,
            !old(self)@.gameover && !old(self)@.pause && topped_out(old(self)@.board)
                ==> final(self)@ == (GameView { gameover: true, ..old(self)@ }),
            !old(self)@.gameover && !old(self)@.pause && !topped_out(old(self)@.board)
                && old(self)@.actual is None
                && collides(old(self)@.board, old(self)@.queue[0]) ==> final(self)@
                == (GameView { gameover: true, ..old(self)@ }),
            !old(self)@.gameover && !old(self)@.pause && !topped_out(old(self)@.board)
                && old(self)@.actual is None
                && !collides(old(self)@.board, old(self)@.queue[0])
                ==> exists|t: PieceType|
                    final(self)@ == (GameView {
                        actual: Some(old(self)@.queue[0]),
                        queue: old(self)@.queue.drop_first().push(#[trigger] spawn_figure(t)),
                        ..old(self)@
                    }),
            !old(self)@.gameover && !old(self)@.pause && !topped_out(old(self)@.board)
                && old(self)@.actual is Some ==> final(self)@ == tick_active(old(self)@),
    {
        if self.gameover {
            return;
        }
        if self.pause {
            return;
        }
        if board_topped_out(&self.static_blocks) {
            self.gameover = true;
            proof {
                assert(self@ =~= (GameView { gameover: true, ..old(self)@ }));
            }
            return;
        }
        match self.actual_figure {
            None => {
                let head = self.next_figures[0];
                if collides_with_board(&self.static_blocks, &head) {
                    self.gameover = true;
                    proof {
                        assert(self@ =~= (GameView { gameover: true, ..old(self)@ }));
                    }
                    return;
                }
                let f = self.next_figures.remove(0);
                self.actual_figure = Some(f);
                let fresh = random_figure();
                self.next_figures.push(fresh);
                proof {
                    let ghost t = choose|t: PieceType| fresh == spawn_figure(t);
                    lemma_spawn_wf(t);
                    assert(self.next_figures@ =~= old(self)@.queue.drop_first().push(
                        spawn_figure(t)));
                    assert(self@ =~= (GameView {
                        actual: Some(old(self)@.queue[0]),
                        queue: old(self)@.queue.drop_first().push(spawn_figure(t)),
                        ..old(self)@
                    }));
                }
            },
            Some(f0) => {
                let mut fig = f0;
                if self.counter >= 60 {
                    let cand = fig.shifted(0, 48);
                    if cand.legal_move() && !collides_with_board(&self.static_blocks, &cand) {
                        proof {
                            lemma_shifted_wf(f0, 0, 48);
                        }
                        fig = cand;
                    }
                    self.counter = 0;
                }
                self.counter = self.counter + 1;
                if would_land(&fig, &self.static_blocks) {
                    lock_figure(&mut self.static_blocks, &fig);
                    self.actual_figure = None;
                    let cleared = clear_rows(&mut self.static_blocks);
                    let add = cleared as u32;
                    if self.score <= u32::MAX - add {
                        self.score = self.score + add;
                    } else {
                        self.score = u32::MAX;
                    }
                    proof {
                        assert(self@ =~= tick_active(old(self)@));
                    }
                } else {
                    self.actual_figure = Some(fig);
                    proof {
                        assert(self@ =~= tick_active(old(self)@));
                    }
                }
            },
        }
    }

    /// Moves the active figure one column to the left, rejecting the
    /// move whole if it would leave the field or hit the stack.
    pub fn move_left(&mut self)
        requires
            old(self).wf(),
        ensures
            final(self).wf(),
            move_post(old(self)@, final(self)@, -48, 0),
    {
        self.shift_figure(-48, 0);
    }

    /// Moves the active figure one column to the right, rejecting the
    /// move whole if it would leave the field or hit the stack.
    pub fn move_right(&mut self)
        requires
            old(self).wf(),
        ensures
            final(self).wf(),
            move_post(old(self)@, final(self)@, 48, 0),
    {
        self.shift_figure(48, 0);
    }

    /// Drops the active figure one row immediately and restarts the
    /// fall timer; the drop is rejected whole if it would leave the
    /// field or hit the stack.
    pub fn soft_drop(&mut self)
        requires
            old(self).wf(),
        ensures
            final(self).wf(),
            move_post(old(self)@, final(self)@, 0, 48),
    {
        self.shift_figure(0, 48);
    }

    /// Shared body of the move commands.
    fn shift_figure(&mut self, dx: i16, dy: i16)
        requires
            old(self).wf(),
            dx == -48 || dx == 0 || dx == 48,
            dy == 0 || dy == 48,
            dx == 0 || dy == 0,
        ensures
            final(self).wf(),
            move_post(old(self)@, final(self)@, dx as int, dy as int),
    {
        if self.gameover {
            return;
        }
        match self.actual_figure {
            None => {},
            Some(f0) => {
                if dy == 48 {
                    self.counter = 0;
                }
                let cand = f0.shifted(dx, dy);
                if cand.legal_move() && !collides_with_board(&self.static_blocks, &cand) {
                    proof {
                        lemma_shifted_wf(f0, dx as int, dy as int);
                    }
                    self.actual_figure = Some(cand);
                }
                proof {
                    assert(self@ =~= (GameView {
                        actual: Some(try_shift_fig(f0, old(self)@.board, dx as int, dy as int)),
                        counter: if dy == 48 { 0int } else { old(self)@.counter },
                        ..old(self)@
                    }));
                }
            },
        }
    }

    /// Rotates the active figure one step, rejecting the rotation
    /// whole — blocks and facing — if the candidate would leave the
    /// field or hit the stack.
    pub fn rotate(&mut self)
        requires
            old(self).wf(),
        ensures
            final(self).wf(),
            rotate_post(old(self)@, final(self)@),
    {
        if self.gameover {
            return;
        }
        match self.actual_figure {
            None => {},
            Some(f0) => {
                let mut fig = f0;
                fig.rotate();
                if collides_with_board(&self.static_blocks, &fig) {
                    fig.restore_blocks(&f0);
                }
                self.actual_figure = Some(fig);
                proof {
                    assert(self@ =~= (GameView {
                        actual: Some(try_rotate_fig(f0, old(self)@.board)),
                        ..old(self)@
                    }));
                }
            },
        }
    }

    /// Banks or swaps the held shape, as `hold_post` describes. A
    /// hold or swap whose incoming figure would land on cells the
    /// stack already occupies is rejected whole: the active figure
    /// never overlaps the stack.
    pub fn hold_swap(&mut self)
        requires
            old(self).wf(),
        ensures
            final(self).wf(),
            hold_post(old(self)@, final(self)@),
    {
        if self.gameover {
            return;
        }
        match self.actual_figure {
            None => {},
            Some(f0) => {
                match self.keep_figure {
                    None => {
                        let head = self.next_figures[0];
                        if collides_with_board(&self.static_blocks, &head) {
                            return;
                        }
                        self.keep_figure = Some(Figure::new(f0.piece_type));
                        let f = self.next_figures.remove(0);
                        self.actual_figure = Some(f);
                        let fresh = random_figure();
                        self.next_figures.push(fresh);
                        proof {
                            let ghost t = choose|t: PieceType|
                                fresh == spawn_figure(t);
                            lemma_spawn_wf(t);
                            assert(self.next_figures@ =~= old(self)@.queue.drop_first().push(
                                spawn_figure(t)));
                            assert(self@ =~= (GameView {
                                keep: Some(spawn_figure(f0.piece_type)),
                                actual: Some(old(self)@.queue[0]),
                                queue: old(self)@.queue.drop_first().push(spawn_figure(t)),
                                ..old(self)@
                            }));
                        }
                    },
                    Some(k) => {
                        let incoming = Figure::new(k.piece_type);
                        if collides_with_board(&self.static_blocks, &incoming) {
                            return;
                        }
                        self.keep_figure = Some(Figure::new(f0.piece_type));
                        self.actual_figure = Some(incoming);
                        proof {
                            assert(self@ =~= (GameView {
                                keep: Some(spawn_figure(f0.piece_type)),
                                actual: Some(spawn_figure(k.piece_type)),
                                ..old(self)@
                            }));
                        }
                    },
                }
            },
        }
    }

    /// Toggles the pause flag. While paused, `tick` changes nothing;
    /// commands — moves and rotations included — keep working.
    pub fn toggle_pause(&mut self)
        requires
            old(self).wf(),
        ensures
            final(self).wf(),
            final(self)@ == (GameView { pause: !old(self)@.pause, ..old(self)@ }),
    {
        self.pause = !self.pause;
        proof {
            assert(self@ =~= (GameView { pause: !old(self)@.pause, ..old(self)@ }));
        }
    }

    /// Starts over: clears the board, the active and held figures, the
    /// score and the game-over flag. The queue is kept and goes on
    /// serving the next game; pause and fall timer are kept too.
    pub fn reset(&mut self)
        requires
            old(self).wf(),
        ensures
            final(self).wf(),
            reset_post(old(self)@, final(self)@),
    {
        self.actual_figure = None;
        self.keep_figure = None;
        self.gameover = false;
        self.score = 0;
        self.static_blocks = Vec::new();
        proof {
            assert(self@.board =~= Seq::<Block>::empty());
            assert(self@ =~= (GameView {
                actual: None,
                keep: None,
                gameover: false,
                score: 0,
                board: Seq::empty(),
                ..old(self)@
            }));
        }
    }

    /// Handles one discrete command.
    pub fn handle_command(&mut self, cmd: Command)
        requires
            old(self).wf(),
        ensures
            final(self).wf(),
            cmd is MoveLeft ==> move_post(old(self)@, final(self)@, -48, 0),
            cmd is MoveRight ==> move_post(old(self)@, final(self)@, 48, 0),
            cmd is SoftDrop ==> move_post(old(self)@, final(self)@, 0, 48),
            cmd is Rotate ==> rotate_post(old(self)@, final(self)@),
            cmd is HoldSwap ==> hold_post(old(self)@, final(self)@),
            cmd is TogglePause ==> final(self)@ == (GameView {
                pause: !old(self)@.pause,
                ..old(self)@
            }),
            cmd is Reset ==> reset_post(old(self)@, final(self)@),
    {
        match cmd {
            Command::MoveLeft => self.move_left(),
            Command::MoveRight => self.move_right(),
            Command::SoftDrop => self.soft_drop(),
            Command::Rotate => self.rotate(),
            Command::HoldSwap => self.hold_swap(),
            Command::TogglePause => self.toggle_pause(),
            Command::Reset => self.reset(),
        }
    }

    /// The current score: one point per cleared row.
    pub fn score(&self) -> (r: u32)
        ensures
            r as int == self@.score,
    {
        self.score
    }

    /// Whether the game has ended.
    pub fn is_game_over(&self) -> (r: bool)
        ensures
            r == self@.gameover,
    {
        self.gameover
    }

    /// Whether the simulation is paused.
    pub fn is_paused(&self) -> (r: bool)
        ensures
            r == self@.pause,
    {
        self.pause
    }

    /// The active figure, if one is falling.
    pub fn active_figure(&self) -> (r: Option<Figure>)
        ensures
            r == self@.actual,
    {
        self.actual_figure
    }

    /// The held figure, if any.
    pub fn held_figure(&self) -> (r: Option<Figure>)
        ensures
            r == self@.keep,
    {
        self.keep_figure
    }

    /// The locked blocks, for rendering.
    pub fn static_blocks(&self) -> (r: &Vec<Block>)
        ensures
            r@ == self@.board,
    {
        &self.static_blocks
    }

    /// How many figures wait in the queue.
    pub fn queue_len(&self) -> (r: usize)
        ensures
            r as int == self@.queue.len(),
    {
        self.next_figures.len()
    }

    /// The waiting figure at the given queue position.
    pub fn queue_figure(&self, i: usize) -> (r: Figure)
        requires
            i < self@.queue.len(),
        ensures
            r == self@.queue[i as int],
    {
        self.next_figures[i]
    }
}

/// Whether some locked block has reached the topmost playable row.
fn board_topped_out(blocks: &Vec<Block>) -> (r: bool)
    ensures
        r == topped_out(blocks@),
{
    let mut i: usize = 0;
    while i < blocks.len()
        invariant
            0 <= i <= blocks@.len(),
            forall|k: int| 0 <= k < i ==> !(#[trigger] blocks@[k].y <= 48),
        decreases blocks@.len() - i,
    {
        if blocks[i].y <= 48 {
            return true;
        }
        i += 1;
    }
    false
}

} // verus!
