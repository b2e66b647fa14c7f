//! The board state of one game session: the grid of claims, whose turn it
//! is, the recorded outcome, and the cosmetic theme index, together with the
//! claim and theme-selection rules.

use crate::outcome::claimed_count;
use crate::outcome::grid_ok;
use crate::outcome::outcome_of;
use crate::outcome::winner;
use rand::Rng;
use vstd::prelude::*;

verus! {

/// How many palettes the theme selector ranges over.
pub const THEME_COUNT: usize = 5;

/// The state of one game session.
pub struct Board {
    /// The 3x3 grid of claims: 0 unclaimed, 1 player A, -1 player B.
    pub cells: [[i8; 3]; 3],
    /// Whose claim is applied next: 1 player A, -1 player B.
    pub turn: i8,
    /// The recorded outcome: 0 in progress, 1 player A won, -1 player B won,
    /// -2 draw.
    pub won: i8,
    /// Cosmetic selector into the palette list; independent of game logic.
    pub theme_no: usize,
}

/// The relation between a board and its successor under an accepted claim at
/// `(row, col)`: the target cell was unclaimed and the game undecided; the
/// cell now records the claimant's mark, every other cell is kept, the turn
/// flips, the outcome is re-evaluated on the new grid, and the theme is kept.
pub open spec fn claim_step(pre: Board, post: Board, row: int, col: int) -> bool {
    &&& 0 <= row < 3 && 0 <= col < 3
    &&& pre.won == 0
    &&& pre.cells[row][col] == 0
    &&& post.cells[row][col] == pre.turn
    &&& forall|i: int, j: int|
        0 <= i < 3 && 0 <= j < 3 && !(i == row && j == col) ==> (#[trigger] post.cells[i][j])
            == pre.cells[i][j]
    &&& post.turn as int == -(pre.turn as int)
    &&& post.won as int == outcome_of(post.cells)
    &&& post.theme_no == pre.theme_no
}

impl Board {
    /// A well-formed board: every cell in {-1, 0, 1}, the turn in {-1, 1},
    /// the recorded outcome agreeing with the evaluator on the grid, and the
    /// theme index within the palette list.
    pub open spec fn wf(self) -> bool {
        &&& grid_ok(self.cells)
        &&& (self.turn == 1 || self.turn == -1)
        &&& self.won as int == outcome_of(self.cells)
        &&& self.theme_no < THEME_COUNT
    }

    /// A fresh board for the given theme: all cells unclaimed, player A to
    /// move, no outcome yet.
    pub fn new(theme_no: usize) -> (b: Board)
        requires
            theme_no < THEME_COUNT,
        ensures
            b.wf(),
            forall|i: int, j: int| 0 <= i < 3 && 0 <= j < 3 ==> (#[trigger] b.cells[i][j]) == 0,
            b.turn == 1,
            b.won == 0,
            b.theme_no == theme_no,
    {
        Board { cells: [[0; 3]; 3], turn: 1, won: 0, theme_no }
    }

    /// A fresh board whose theme index is drawn at random over the palette
    /// list.
    pub fn new_with_random_theme() -> (b: Board)
        ensures
            b.wf(),
            forall|i: int, j: int| 0 <= i < 3 && 0 <= j < 3 ==> (#[trigger] b.cells[i][j]) == 0,
            b.turn == 1,
            b.won == 0,
    {
        Board::new(random_theme_index())
    }

    /// Attempts to record the current player's claim at `(row, col)`. The
    /// claim is accepted exactly when the target cell is unclaimed and the
    /// game is undecided; a rejected claim leaves the board unchanged.
    pub fn attempt_claim(&mut self, row: usize, col: usize) -> (accepted: bool)
        requires
            old(self).wf(),
            row < 3,
            col < 3,
        ensures
            final(self).wf(),
            accepted == (old(self).won == 0 && old(self).cells[row as int][col as int] == 0),
            accepted ==> claim_step(*old(self), *final(self), row as int, col as int),
            accepted ==> claimed_count(final(self).cells) == claimed_count(old(self).cells) + 1,
            !accepted ==> *final(self) == *old(self),
    {
        if self.won != 0 || self.cells[row][col] != 0 {
            return false;
        }
        self.cells[row][col] = self.turn;
        self.turn = -self.turn;
        let w: i8 = winner(&self.cells);
        self.won = w;
        true
    }

    /// Sets the cosmetic theme index; the game state itself is untouched.
    pub fn select_theme(&mut self, index: usize)
        requires
            old(self).wf(),
            index < THEME_COUNT,
        ensures
            final(self).wf(),
            final(self).theme_no == index,
            final(self).cells == old(self).cells,
            final(self).turn == old(self).turn,
            final(self).won == old(self).won,
    {
        self.theme_no = index;
    }
}

/// Turn alternation: from a board where player A is to move, one accepted
/// claim hands the turn to player B, and a second accepted claim hands it
/// back to player A.
pub proof fn lemma_turn_alternation(
    b0: Board,
    b1: Board,
    b2: Board,
    r1: int,
    c1: int,
    r2: int,
    c2: int,
)
    requires
        b0.turn == 1,
        claim_step(b0, b1, r1, c1),
        claim_step(b1, b2, r2, c2),
    ensures
        b1.turn == -1,
        b2.turn == 1,
{
}

/// Relies on rand::Rng::gen_range: a value drawn from a non-empty half-open
/// range lies in it.
#[verifier::external_body]
fn random_theme_index() -> (r: usize)
    ensures
        r < THEME_COUNT,
{
    rand::thread_rng().gen_range(0..THEME_COUNT)
}

} // verus!
