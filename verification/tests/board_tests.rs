use plotter_bird::board::{
    gen_board, BOARD_SIZE, HORIZONTAL_SPACING, MAX_GAP_WIDTH, MAX_GAP_Y, MIN_GAP_WIDTH,
    MIN_GAP_Y, X_OFFSET,
};
use plotter_bird::game::{board_fits_check, standard_settings};

#[test]
fn generated_board_has_passable_gaps() {
    for _ in 0..50 {
        let board = gen_board();
        assert_eq!(board.len(), BOARD_SIZE as usize);
        for p in &board {
            assert!(p.y2 - p.y1 >= MIN_GAP_WIDTH);
            assert!(p.y2 - p.y1 < MAX_GAP_WIDTH);
            assert!(p.y1 >= MIN_GAP_Y);
            assert!(p.y1 < MAX_GAP_Y);
        }
    }
}

#[test]
fn generated_board_columns_are_evenly_spaced() {
    let board = gen_board();
    for (i, p) in board.iter().enumerate() {
        assert_eq!(p.x, (i as u32 + 1) * HORIZONTAL_SPACING - X_OFFSET);
    }
    for w in board.windows(2) {
        assert!(w[0].x < w[1].x);
    }
}

#[test]
fn generated_board_fits_the_machine() {
    let board = gen_board();
    let s = standard_settings();
    assert!(board_fits_check(&board, &s));
}
