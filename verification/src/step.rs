//! One step of the game: the neighbour count and the rule, cell by cell.

use crate::board::Board;
use crate::grid::{
    alive, counts, grid_of, height, is_board, lives_on, neighbour_count, next_cell, next_grid,
    row_count, unit, width, Frame, Grid,
};
use vstd::prelude::*;

verus! {

/// The part of [`row_count`] that comes from the column offsets below `dy`.
spec fn row_count_below(g: Grid, r: int, j: int, dy: int) -> int {
    (if dy > -1 {
        unit(counts(g, r, j - 1))
    } else {
        0
    }) + (if dy > 0 {
        unit(counts(g, r, j))
    } else {
        0
    }) + (if dy > 1 {
        unit(counts(g, r, j + 1))
    } else {
        0
    })
}

/// The part of [`crate::grid::block_count`] that comes from the row offsets below `dx`.
spec fn block_count_below(g: Grid, i: int, j: int, dx: int) -> int {
    (if dx > -1 {
        row_count(g, i - 1, j)
    } else {
        0
    }) + (if dx > 0 {
        row_count(g, i, j)
    } else {
        0
    }) + (if dx > 1 {
        row_count(g, i + 1, j)
    } else {
        0
    })
}

/// Whether the cell at (`i`, `j`) is alive; `false` off the grid.
pub fn is_alive(board: &Board, i: usize, j: usize) -> (res: bool)
    ensures
        res == alive(board@, i as int, j as int),
{
    let items = board.items();
    if i < board.rows() && j < board.cols() {
        assert(board@[i as int] == items@[i as int]@);
        items[i][j] != 0
    } else {
        false
    }
}

/// The neighbour count of the cell at (`i`, `j`): the alive cells among the
/// nine positions of the block around it that lie inside the grid, below the
/// first row and right of the first column, less one where the cell itself is
/// alive.
pub fn live_neighbours(board: &Board, i: usize, j: usize) -> (n: i32)
    ensures
        n == neighbour_count(board@, i as int, j as int),
{
    let items = board.items();
    let rows = board.rows();
    let cols = board.cols();
    let mut n: i32 = 0;
    let mut dx: i128 = -1;
    while dx <= 1
        invariant
            -1 <= dx <= 2,
            is_board(board@),
            grid_of(items) == board@,
            rows == height(board@),
            cols == width(board@),
            n == block_count_below(board@, i as int, j as int, dx as int),
        decreases 2 - dx,
    {
        let r: i128 = i as i128 + dx;
        let ghost before: int = n as int;
        let mut dy: i128 = -1;
        while dy <= 1
            invariant
                -1 <= dy <= 2,
                -1 <= dx <= 1,
                r == i + dx,
                is_board(board@),
                grid_of(items) == board@,
                rows == height(board@),
                cols == width(board@),
                0 <= before <= 6,
                n == before + row_count_below(board@, r as int, j as int, dy as int),
            decreases 2 - dy,
        {
            let c: i128 = j as i128 + dy;
            if r > 0 && c > 0 && r < rows as i128 && c < cols as i128 {
                assert(board@[r as int] == items@[r as int]@);
                if items[r as usize][c as usize] != 0 {
                    n = n + 1;
                }
            }
            dy = dy + 1;
        }
        dx = dx + 1;
    }
    if is_alive(board, i, j) {
        n = n - 1;
    }
    n
}

/// The rule of the game on one cell: what a cell becomes that is alive or
/// dead and has `n` counted neighbours.
pub fn apply_rule(was_alive: bool, n: i32) -> (cell: i32)
    ensures
        cell == (if lives_on(was_alive, n as int) {
            1i32
        } else {
            0i32
        }),
{
    if was_alive && n < 2 {
        0
    } else if was_alive && n > 3 {
        0
    } else if !was_alive && n == 3 {
        1
    } else if was_alive {
        1
    } else {
        0
    }
}

/// The frame that follows the board's: every cell replaced by what the rule
/// makes of it and of its neighbour count on the board as it is. The board is
/// left as it is; the frame returned is new.
pub fn update(board: &Board) -> (next: Frame)
    ensures
        grid_of(&next) == next_grid(board@),
        is_board(grid_of(&next)),
        height(grid_of(&next)) == height(board@),
        width(grid_of(&next)) == width(board@),
{
    let rows = board.rows();
    let cols = board.cols();
    let mut next: Frame = Vec::new();
    let mut i: usize = 0;
    while i < rows
        invariant
            i <= rows,
            is_board(board@),
            rows == height(board@),
            cols == width(board@),
            next@.len() == i,
            forall|r: int|
                0 <= r < i ==> (#[trigger] next@[r])@ == Seq::new(
                    cols as nat,
                    |c: int| next_cell(board@, r, c),
                ),
        decreases rows - i,
    {
        let mut row: Vec<i32> = Vec::new();
        let mut j: usize = 0;
        while j < cols
            invariant
                j <= cols,
                row@.len() == j,
                forall|c: int| 0 <= c < j ==> #[trigger] row@[c] == next_cell(board@, i as int, c),
            decreases cols - j,
        {
            let was_alive = is_alive(board, i, j);
            let n = live_neighbours(board, i, j);
            row.push(apply_rule(was_alive, n));
            j = j + 1;
        }
        assert(row@ =~= Seq::new(cols as nat, |c: int| next_cell(board@, i as int, c)));
        next.push(row);
        i = i + 1;
    }
    assert(grid_of(&next) =~= next_grid(board@));
    next
}

} // verus!
