use game_of_life::seed::cell_from_word;
use game_of_life::{gen_board, try_gen_board, update, Board, DimensionError};

#[test]
fn from_frame_takes_a_rectangle_of_cells() {
    let b = Board::from_frame(vec![vec![0, 1, 0], vec![1, 1, 0]]).unwrap();
    assert_eq!(b.rows(), 2);
    assert_eq!(b.cols(), 3);
    assert_eq!(b.items(), &vec![vec![0, 1, 0], vec![1, 1, 0]]);
}

#[test]
fn from_frame_refuses_no_rows() {
    assert!(Board::from_frame(vec![]).is_none());
}

#[test]
fn from_frame_refuses_no_columns() {
    assert!(Board::from_frame(vec![vec![]]).is_none());
    assert!(Board::from_frame(vec![vec![], vec![]]).is_none());
}

#[test]
fn from_frame_refuses_rows_of_different_length() {
    assert!(Board::from_frame(vec![vec![0, 1], vec![0]]).is_none());
    assert!(Board::from_frame(vec![vec![0], vec![0, 1]]).is_none());
    assert!(Board::from_frame(vec![vec![0, 1], vec![0, 1], vec![0, 1, 0]]).is_none());
}

#[test]
fn from_frame_refuses_a_cell_that_is_neither_zero_nor_one() {
    assert!(Board::from_frame(vec![vec![0, 2]]).is_none());
    assert!(Board::from_frame(vec![vec![0, 1], vec![-1, 0]]).is_none());
    assert!(Board::from_frame(vec![vec![0, 1], vec![0, i32::MAX]]).is_none());
}

#[test]
fn gen_board_has_the_dimensions_asked_for() {
    for (rows, cols) in [(1usize, 1usize), (3, 3), (2, 9), (9, 2), (20, 40)] {
        let b = gen_board(rows, cols);
        assert_eq!(b.rows(), rows);
        assert_eq!(b.cols(), cols);
        assert_eq!(b.items().len(), rows);
        for row in b.items() {
            assert_eq!(row.len(), cols);
            for cell in row {
                assert!(*cell == 0 || *cell == 1);
            }
        }
    }
}

#[test]
fn gen_board_then_update_on_three_by_three() {
    let b = gen_board(3, 3);
    let next = update(&b);
    assert_eq!(next.len(), 3);
    for row in &next {
        assert_eq!(row.len(), 3);
    }
    let centre = Board::from_frame(vec![vec![0, 0, 0], vec![0, 1, 0], vec![0, 0, 0]]).unwrap();
    assert_eq!(update(&centre), vec![vec![0; 3]; 3]);
}

#[test]
fn gen_board_is_alive_in_about_half_of_its_cells() {
    let b = gen_board(100, 100);
    let alive: usize = b
        .items()
        .iter()
        .map(|row| row.iter().filter(|cell| **cell == 1).count())
        .sum();
    let fraction = alive as f64 / 10_000.0;
    assert!(fraction > 0.44 && fraction < 0.56, "fraction alive: {}", fraction);
}

#[test]
fn gen_board_gives_different_boards() {
    let a = gen_board(16, 16);
    let b = gen_board(16, 16);
    assert_ne!(a.items(), b.items());
}

#[test]
fn try_gen_board_refuses_no_rows() {
    assert_eq!(try_gen_board(0, 5).unwrap_err(), DimensionError::NoRows);
    assert_eq!(try_gen_board(0, 0).unwrap_err(), DimensionError::NoRows);
}

#[test]
fn try_gen_board_refuses_no_columns() {
    assert_eq!(try_gen_board(5, 0).unwrap_err(), DimensionError::NoColumns);
}

#[test]
fn try_gen_board_makes_a_board() {
    let b = try_gen_board(4, 6).unwrap();
    assert_eq!(b.rows(), 4);
    assert_eq!(b.cols(), 6);
}

#[test]
fn draw_of_exactly_one_half_is_dead() {
    assert_eq!(cell_from_word(1 << 63), 0);
    // The low eleven bits are no part of the draw.
    assert_eq!(cell_from_word((1 << 63) + 0x7ff), 0);
}

#[test]
fn draw_just_above_one_half_is_alive() {
    assert_eq!(cell_from_word((1 << 63) + 0x800), 1);
    assert_eq!(cell_from_word(u64::MAX), 1);
}

#[test]
fn draw_below_one_half_is_dead() {
    assert_eq!(cell_from_word(0), 0);
    assert_eq!(cell_from_word((1 << 63) - 1), 0);
    assert_eq!(cell_from_word(0x7ff), 0);
}
