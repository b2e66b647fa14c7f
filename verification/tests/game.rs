use tic_tac_toe::board::Board;
use tic_tac_toe::board::THEME_COUNT;
use tic_tac_toe::outcome::winner;

#[test]
fn evaluate_empty_grid_in_progress() {
    let g: [[i8; 3]; 3] = [[0, 0, 0], [0, 0, 0], [0, 0, 0]];
    assert_eq!(winner(&g), 0);
}

#[test]
fn evaluate_top_row_win() {
    let g: [[i8; 3]; 3] = [[1, 1, 1], [-1, -1, 0], [0, 0, 0]];
    assert_eq!(winner(&g), 1);
}

#[test]
fn evaluate_column_win_for_b() {
    let g: [[i8; 3]; 3] = [[-1, 1, 0], [-1, 0, 1], [-1, 1, 0]];
    assert_eq!(winner(&g), -1);
}

#[test]
fn evaluate_diagonal_win_for_a() {
    let g: [[i8; 3]; 3] = [[1, -1, 0], [-1, 1, 0], [0, -1, 1]];
    assert_eq!(winner(&g), 1);
}

#[test]
fn evaluate_anti_diagonal_win_for_b() {
    let g: [[i8; 3]; 3] = [[1, 1, -1], [1, -1, 0], [-1, 0, 0]];
    assert_eq!(winner(&g), -1);
}

#[test]
fn evaluate_full_grid_draw() {
    let g: [[i8; 3]; 3] = [[1, -1, 1], [-1, 1, -1], [-1, 1, -1]];
    assert_eq!(winner(&g), -2);
}

#[test]
fn evaluate_partial_grid_in_progress() {
    let g: [[i8; 3]; 3] = [[1, -1, 0], [0, 1, 0], [0, 0, -1]];
    assert_eq!(winner(&g), 0);
}

#[test]
fn new_board_is_empty() {
    let b = Board::new(3);
    assert_eq!(b.cells, [[0, 0, 0], [0, 0, 0], [0, 0, 0]]);
    assert_eq!(b.turn, 1);
    assert_eq!(b.won, 0);
    assert_eq!(b.theme_no, 3);
}

#[test]
fn claim_on_empty_board() {
    let mut b = Board::new(0);
    let accepted = b.attempt_claim(0, 0);
    assert!(accepted);
    assert_eq!(b.cells[0][0], 1);
    assert_eq!(b.turn, -1);
    assert_eq!(b.won, 0);
}

#[test]
fn claim_on_claimed_cell_rejected() {
    let mut b = Board::new(1);
    assert!(b.attempt_claim(1, 1));
    let cells_before: [[i8; 3]; 3] = b.cells;
    let turn_before: i8 = b.turn;
    let won_before: i8 = b.won;
    let accepted = b.attempt_claim(1, 1);
    assert!(!accepted);
    assert_eq!(b.cells, cells_before);
    assert_eq!(b.turn, turn_before);
    assert_eq!(b.won, won_before);
    assert_eq!(b.theme_no, 1);
}

#[test]
fn claim_after_game_end_rejected() {
    let mut b = Board::new(4);
    assert!(b.attempt_claim(0, 0));
    assert!(b.attempt_claim(1, 0));
    assert!(b.attempt_claim(0, 1));
    assert!(b.attempt_claim(1, 1));
    assert!(b.attempt_claim(0, 2));
    assert_eq!(b.won, 1);
    for i in 0..3usize {
        for j in 0..3usize {
            assert!(!b.attempt_claim(i, j));
        }
    }
    assert_eq!(b.cells, [[1, 1, 1], [-1, -1, 0], [0, 0, 0]]);
    assert_eq!(b.turn, -1);
    assert_eq!(b.won, 1);
}

#[test]
fn turn_alternates() {
    let mut b = Board::new(2);
    assert_eq!(b.turn, 1);
    assert!(b.attempt_claim(0, 0));
    assert_eq!(b.turn, -1);
    assert!(b.attempt_claim(2, 2));
    assert_eq!(b.turn, 1);
    assert!(b.attempt_claim(0, 1));
    assert_eq!(b.turn, -1);
}

#[test]
fn claims_reach_win_for_b() {
    let mut b = Board::new(0);
    assert!(b.attempt_claim(0, 1));
    assert!(b.attempt_claim(0, 0));
    assert!(b.attempt_claim(2, 2));
    assert!(b.attempt_claim(1, 0));
    assert!(b.attempt_claim(1, 2));
    assert!(b.attempt_claim(2, 0));
    assert_eq!(b.won, -1);
    assert_eq!(b.cells, [[-1, 1, 0], [-1, 0, 1], [-1, 0, 1]]);
}

#[test]
fn claims_reach_draw() {
    let mut b = Board::new(0);
    let moves: [(usize, usize); 9] = [
        (0, 0),
        (0, 1),
        (0, 2),
        (1, 1),
        (1, 0),
        (1, 2),
        (2, 1),
        (2, 0),
        (2, 2),
    ];
    for k in 0..9usize {
        assert_eq!(b.won, 0);
        assert!(b.attempt_claim(moves[k].0, moves[k].1));
    }
    assert_eq!(b.cells, [[1, -1, 1], [1, -1, -1], [-1, 1, 1]]);
    assert_eq!(b.won, -2);
}

#[test]
fn select_theme_changes_only_theme() {
    let mut b = Board::new(0);
    assert!(b.attempt_claim(1, 1));
    b.select_theme(4);
    assert_eq!(b.theme_no, 4);
    assert_eq!(b.cells, [[0, 0, 0], [0, 1, 0], [0, 0, 0]]);
    assert_eq!(b.turn, -1);
    assert_eq!(b.won, 0);
}

#[test]
fn random_theme_index_in_range() {
    for _ in 0..32usize {
        let b = Board::new_with_random_theme();
        assert!(b.theme_no < THEME_COUNT);
        assert_eq!(b.cells, [[0, 0, 0], [0, 0, 0], [0, 0, 0]]);
        assert_eq!(b.turn, 1);
        assert_eq!(b.won, 0);
    }
}
