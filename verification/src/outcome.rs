//! The outcome evaluator: a pure function over a 3x3 grid of claims that
//! reports a win for either player, a draw, or a game still in progress.

use vstd::prelude::*;

verus! {

/// A cell holds -1 (a claim of player B), 0 (unclaimed) or 1 (a claim of
/// player A).
pub open spec fn cell_ok(c: i8) -> bool {
    c == -1 || c == 0 || c == 1
}

/// Every cell of the grid holds a value in {-1, 0, 1}.
pub open spec fn grid_ok(g: [[i8; 3]; 3]) -> bool {
    forall|i: int, j: int| 0 <= i < 3 && 0 <= j < 3 ==> cell_ok(#[trigger] g[i][j])
}

/// The sum of row `i` of the grid.
pub open spec fn row_sum(g: [[i8; 3]; 3], i: int) -> int {
    g[i][0] + g[i][1] + g[i][2]
}

/// The sum of column `j` of the grid.
pub open spec fn col_sum(g: [[i8; 3]; 3], j: int) -> int {
    g[0][j] + g[1][j] + g[2][j]
}

/// The sum of the main diagonal.
pub open spec fn diag_sum(g: [[i8; 3]; 3]) -> int {
    g[0][0] + g[1][1] + g[2][2]
}

/// The sum of the anti-diagonal.
pub open spec fn anti_diag_sum(g: [[i8; 3]; 3]) -> int {
    g[0][2] + g[1][1] + g[2][0]
}

/// Some line of the grid (a row, a column or a diagonal) sums to `s`.
pub open spec fn has_line_sum(g: [[i8; 3]; 3], s: int) -> bool {
    ||| row_sum(g, 0) == s
    ||| row_sum(g, 1) == s
    ||| row_sum(g, 2) == s
    ||| col_sum(g, 0) == s
    ||| col_sum(g, 1) == s
    ||| col_sum(g, 2) == s
    ||| diag_sum(g) == s
    ||| anti_diag_sum(g) == s
}

/// All nine cells of the grid are claimed.
pub open spec fn full(g: [[i8; 3]; 3]) -> bool {
    forall|i: int, j: int| 0 <= i < 3 && 0 <= j < 3 ==> (#[trigger] g[i][j]) != 0
}

/// 1 for a claimed cell, 0 for an unclaimed one.
pub open spec fn cell_claimed(c: i8) -> int {
    if c == 0 {
        0
    } else {
        1
    }
}

/// How many of the nine cells are claimed.
pub open spec fn claimed_count(g: [[i8; 3]; 3]) -> int {
    cell_claimed(g[0][0]) + cell_claimed(g[0][1]) + cell_claimed(g[0][2]) + cell_claimed(g[1][0])
        + cell_claimed(g[1][1]) + cell_claimed(g[1][2]) + cell_claimed(g[2][0]) + cell_claimed(
        g[2][1],
    ) + cell_claimed(g[2][2])
}

/// The claimed count of any grid lies between 0 and 9.
pub proof fn lemma_claimed_count_bounds(g: [[i8; 3]; 3])
    ensures
        0 <= claimed_count(g) <= 9,
{
}

/// The outcome of a grid: 1 if player A completed a line, else -1 if player B
/// completed a line, else -2 if the grid is full (a draw), else 0 (the game
/// goes on).
pub open spec fn outcome_of(g: [[i8; 3]; 3]) -> int {
    if has_line_sum(g, 3) {
        1
    } else if has_line_sum(g, -3) {
        -1
    } else if full(g) {
        -2
    } else {
        0
    }
}

/// Evaluates the outcome of a grid by summing its eight lines: +3 means three
/// claims of player A in a line, -3 three claims of player B.
pub fn winner(dt: &[[i8; 3]; 3]) -> (r: i8)
    requires
        grid_ok(*dt),
    ensures
        r as int == outcome_of(*dt),
{
    let r0: i8 = dt[0][0] + dt[0][1] + dt[0][2];
    let r1: i8 = dt[1][0] + dt[1][1] + dt[1][2];
    let r2: i8 = dt[2][0] + dt[2][1] + dt[2][2];
    let c0: i8 = dt[0][0] + dt[1][0] + dt[2][0];
    let c1: i8 = dt[0][1] + dt[1][1] + dt[2][1];
    let c2: i8 = dt[0][2] + dt[1][2] + dt[2][2];
    let d0: i8 = dt[0][0] + dt[1][1] + dt[2][2];
    let d1: i8 = dt[0][2] + dt[1][1] + dt[2][0];

    if r0 == 3 || r1 == 3 || r2 == 3 || c0 == 3 || c1 == 3 || c2 == 3 || d0 == 3 || d1 == 3 {
        1
    } else if r0 == -3 || r1 == -3 || r2 == -3 || c0 == -3 || c1 == -3 || c2 == -3 || d0 == -3
        || d1 == -3 {
        -1
    } else if dt[0][0] != 0 && dt[0][1] != 0 && dt[0][2] != 0 && dt[1][0] != 0 && dt[1][1] != 0
        && dt[1][2] != 0 && dt[2][0] != 0 && dt[2][1] != 0 && dt[2][2] != 0 {
        -2
    } else {
        0
    }
}

/// Any grid with a line summing to +3 evaluates to a win for player A.
pub proof fn lemma_plus_line_wins(g: [[i8; 3]; 3])
    requires
        grid_ok(g),
        has_line_sum(g, 3),
    ensures
        outcome_of(g) == 1,
{
}

/// Any grid with a line summing to -3, and none summing to +3, evaluates to a
/// win for player B. The proviso is needed: a grid may hold a completed line
/// of each player, and the evaluator then reports player A.
pub proof fn lemma_minus_line_wins(g: [[i8; 3]; 3])
    requires
        grid_ok(g),
        has_line_sum(g, -3),
        !has_line_sum(g, 3),
    ensures
        outcome_of(g) == -1,
{
}

/// Any full grid with no line summing to +3 or -3 evaluates to a draw.
pub proof fn lemma_full_grid_draws(g: [[i8; 3]; 3])
    requires
        grid_ok(g),
        full(g),
        !has_line_sum(g, 3),
        !has_line_sum(g, -3),
    ensures
        outcome_of(g) == -2,
{
}

} // verus!
