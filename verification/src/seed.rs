//! A board filled at random.
//!
//! Each cell is drawn on its own. A draw is a number of the unit interval,
//! zero included and one not, held as a fraction of 2^53: the 53 high bits of
//! a random word are its numerator. The cell is alive where the draw is above
//! one half, and dead where it is one half or less.

use crate::board::Board;
use crate::grid::{grid_of, height, is_board, width, Frame};
use rand::RngCore;
use vstd::prelude::*;

verus! {

/// The generator that `rand` keeps for each thread. Nothing of what it holds
/// is visible here.
#[verifier::external_type_specification]
#[verifier::external_body]
pub struct ExThreadRng(rand::rngs::ThreadRng);

/// `rand::thread_rng`: a handle to the calling thread's generator, which the
/// operating system seeds at its first use. Nothing is claimed of the handle.
/// Where the system gives no seed the call does not return.
#[verifier::external_body]
fn thread_generator() -> (rng: rand::rngs::ThreadRng) {
    rand::thread_rng()
}

/// `RngCore::next_u64` of `rand::rngs::ThreadRng`: the next 64 random bits.
/// Nothing is claimed of the word: any value may come back, and two calls may
/// differ. Where the generator is due for a new seed and the system gives
/// none the call does not return.
#[verifier::external_body]
fn next_word(rng: &mut rand::rngs::ThreadRng) -> (word: u64) {
    rng.next_u64()
}

/// The denominator of a draw: 2^53.
pub open spec fn draw_scale() -> int {
    0x20_0000_0000_0000
}

/// The draw that a random word gives: its 53 high bits, the numerator of a
/// fraction of [`draw_scale`], so that the draw lies in the unit interval.
pub open spec fn draw_of(word: u64) -> int {
    word as int / 0x800
}

/// Whether a draw is strictly above one half.
pub open spec fn above_half(draw: int) -> bool {
    2 * draw > draw_scale()
}

/// The cell that a random word gives: alive (1) where its draw is above one
/// half, dead (0) where the draw is one half or less.
pub fn cell_from_word(word: u64) -> (cell: i32)
    ensures
        0 <= draw_of(word) < draw_scale(),
        cell == (if above_half(draw_of(word)) {
            1i32
        } else {
            0i32
        }),
{
    let draw: u64 = word >> 11;
    assert(draw == word / 0x800 && draw < 0x20_0000_0000_0000) by (bit_vector)
        requires
            draw == word >> 11,
    ;
    if draw > 0x10_0000_0000_0000 {
        1
    } else {
        0
    }
}

/// Which words give an alive cell: those from 2^63 + 2^11 upwards, one short
/// of half of the draws.
pub proof fn lemma_words_that_give_alive(word: u64)
    ensures
        above_half(draw_of(word)) <==> word >= 0x8000_0000_0000_0800,
{
}

/// Why no board can be made for a pair of dimensions.
#[derive(Debug, Clone, Copy, PartialEq, Eq)]
pub enum DimensionError {
    /// The number of rows is zero.
    NoRows,
    /// The number of columns is zero.
    NoColumns,
}

/// A board of the given dimensions, each cell drawn at random and on its own:
/// see [`cell_from_word`] for what a draw makes of a cell. Both dimensions
/// must be at least one.
pub fn gen_board(num_rows: usize, num_cols: usize) -> (board: Board)
    requires
        num_rows >= 1,
        num_cols >= 1,
    ensures
        is_board(board@),
        height(board@) == num_rows,
        width(board@) == num_cols,
{
    let mut rng = thread_generator();
    let mut items: Frame = Vec::new();
    let mut r: usize = 0;
    while r < num_rows
        invariant
            r <= num_rows,
            num_cols >= 1,
            items@.len() == r,
            forall|k: int| 0 <= k < r ==> (#[trigger] items@[k])@.len() == num_cols,
            forall|k: int, c: int|
                0 <= k < r && 0 <= c < num_cols ==> (#[trigger] items@[k]@[c] == 0
                    || items@[k]@[c] == 1),
        decreases num_rows - r,
    {
        let mut row: Vec<i32> = Vec::new();
        let mut c: usize = 0;
        while c < num_cols
            invariant
                c <= num_cols,
                row@.len() == c,
                forall|k: int| 0 <= k < c ==> (#[trigger] row@[k] == 0 || row@[k] == 1),
            decreases num_cols - c,
        {
            let word = next_word(&mut rng);
            row.push(cell_from_word(word));
            c = c + 1;
        }
        items.push(row);
        r = r + 1;
    }
    proof {
        let g = grid_of(&items);
        assert(g.len() == num_rows);
        assert forall|k: int| 0 <= k < num_rows implies (#[trigger] g[k]).len() == num_cols by {
            assert(g[k] == items@[k]@);
        }
        assert forall|k: int, c: int| 0 <= k < num_rows && 0 <= c < num_cols implies (
        #[trigger] g[k][c] == 0 || g[k][c] == 1) by {
            assert(g[k] == items@[k]@);
        }
    }
    Board::from_parts(items, num_rows, num_cols)
}

/// A board of the given dimensions filled at random, as [`gen_board`] makes
/// it, or the reason why there is none: a dimension of zero is refused.
pub fn try_gen_board(num_rows: usize, num_cols: usize) -> (res: Result<Board, DimensionError>)
    ensures
        match res {
            Ok(board) => num_rows >= 1 && num_cols >= 1 && is_board(board@) && height(board@)
                == num_rows && width(board@) == num_cols,
            Err(DimensionError::NoRows) => num_rows == 0,
            Err(DimensionError::NoColumns) => num_rows >= 1 && num_cols == 0,
        },
{
    if num_rows == 0 {
        Err(DimensionError::NoRows)
    } else if num_cols == 0 {
        Err(DimensionError::NoColumns)
    } else {
        Ok(gen_board(num_rows, num_cols))
    }
}

} // verus!
