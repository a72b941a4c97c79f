//! What holds of every step of the game.

use crate::board::Board;
use crate::grid::{
    adjacent_alive, alive, block_count, counts, grid_of, height, is_board, neighbour_count,
    next_cell, next_grid, none_hidden, width, Frame, Grid,
};
use vstd::prelude::*;

verus! {

/// A step keeps the shape: the grid after it has the height and the width of
/// the grid before it, and is again a grid that a board can hold.
pub proof fn lemma_step_keeps_shape(g: Grid)
    requires
        is_board(g),
    ensures
        is_board(next_grid(g)),
        height(next_grid(g)) == height(g),
        width(next_grid(g)) == width(g),
        forall|r: int| 0 <= r < height(g) ==> (#[trigger] next_grid(g)[r]).len() == width(g),
{
}

/// A step is a function of the grid alone: two boards that hold the same
/// grid have the same next frame, whichever call of `update` computed it.
pub proof fn lemma_update_is_deterministic(a: &Board, b: &Board, next_a: &Frame, next_b: &Frame)
    requires
        a@ == b@,
        grid_of(next_a) == next_grid(a@),
        grid_of(next_b) == next_grid(b@),
    ensures
        grid_of(next_a) == grid_of(next_b),
{
}

/// Where the first row and the first column hide nothing, the count that the
/// rule is applied to is the number of alive cells around the cell. It is
/// never more than that number.
pub proof fn lemma_count_of_adjacent(g: Grid, i: int, j: int)
    requires
        is_board(g),
        0 <= i < height(g),
        0 <= j < width(g),
    ensures
        neighbour_count(g, i, j) <= adjacent_alive(g, i, j),
        none_hidden(g, i, j) && (i > 0 && j > 0 || !alive(g, i, j)) ==> neighbour_count(g, i, j)
            == adjacent_alive(g, i, j),
{
}

/// Birth: a dead cell with exactly three alive cells around it, none of them
/// in the first row or the first column, is alive after the step.
pub proof fn lemma_birth(g: Grid, i: int, j: int)
    requires
        is_board(g),
        0 <= i < height(g),
        0 <= j < width(g),
        !alive(g, i, j),
        adjacent_alive(g, i, j) == 3,
        none_hidden(g, i, j),
    ensures
        next_grid(g)[i][j] == 1,
{
    lemma_count_of_adjacent(g, i, j);
}

/// Death by underpopulation: an alive cell with no alive cell around it, or
/// with one, is dead after the step, wherever it lies.
pub proof fn lemma_underpopulation(g: Grid, i: int, j: int)
    requires
        is_board(g),
        0 <= i < height(g),
        0 <= j < width(g),
        alive(g, i, j),
        adjacent_alive(g, i, j) <= 1,
    ensures
        next_grid(g)[i][j] == 0,
{
    lemma_count_of_adjacent(g, i, j);
}

/// Death by overpopulation: an alive cell with four or more alive cells
/// around it is dead after the step, unless the first row and the first
/// column hide so many of them that the count which is left is two or three.
pub proof fn lemma_overpopulation(g: Grid, i: int, j: int)
    requires
        is_board(g),
        0 <= i < height(g),
        0 <= j < width(g),
        alive(g, i, j),
        adjacent_alive(g, i, j) >= 4,
        !(neighbour_count(g, i, j) == 2 || neighbour_count(g, i, j) == 3),
    ensures
        next_grid(g)[i][j] == 0,
{
}

/// Away from the first row and the first column, with nothing hidden, four or
/// more alive cells around an alive cell always kill it.
pub proof fn lemma_overpopulation_inside(g: Grid, i: int, j: int)
    requires
        is_board(g),
        0 < i < height(g),
        0 < j < width(g),
        alive(g, i, j),
        adjacent_alive(g, i, j) >= 4,
        none_hidden(g, i, j),
    ensures
        next_grid(g)[i][j] == 0,
{
    lemma_count_of_adjacent(g, i, j);
}

/// The block is a still life: a grid whose alive cells are exactly the four
/// of a two-by-two block that lies below the first row and right of the first
/// column is left as it is by a step.
pub proof fn lemma_block_is_still(g: Grid, r: int, c: int)
    requires
        is_board(g),
        1 <= r,
        r + 1 < height(g),
        1 <= c,
        c + 1 < width(g),
        forall|i: int, j: int|
            0 <= i < height(g) && 0 <= j < width(g) ==> (#[trigger] g[i][j] != 0 <==> r <= i <= r
                + 1 && c <= j <= c + 1),
    ensures
        next_grid(g) == g,
{
    assert forall|i: int, j: int| 0 <= i < height(g) && 0 <= j < width(g) implies next_cell(
        g,
        i,
        j,
    ) == #[trigger] g[i][j] by {
        assert forall|a: int, b: int| alive(g, a, b) <==> (r <= a <= r + 1 && c <= b <= c + 1) by {
            if 0 <= a < height(g) && 0 <= b < width(g) {
                assert(g[a][b] != 0 <==> r <= a <= r + 1 && c <= b <= c + 1);
            }
        }
    }
    assert forall|i: int| 0 <= i < height(g) implies #[trigger] next_grid(g)[i] == g[i] by {
        assert(next_grid(g)[i] =~= g[i]);
    }
    assert(next_grid(g) =~= g);
}

/// The first row and the first column are never counted: two grids of one
/// shape that agree below the first row and right of the first column give
/// every block the same count, and so agree after a step wherever they agreed
/// before it.
pub proof fn lemma_first_row_and_column_never_count(f: Grid, g: Grid)
    requires
        is_board(f),
        is_board(g),
        height(f) == height(g),
        width(f) == width(g),
        forall|r: int, c: int|
            0 < r < height(f) && 0 < c < width(f) ==> #[trigger] f[r][c] == #[trigger] g[r][c],
    ensures
        forall|i: int, j: int| #[trigger] block_count(f, i, j) == block_count(g, i, j),
        forall|i: int, j: int|
            0 <= i < height(f) && 0 <= j < width(f) && f[i][j] == g[i][j] ==> #[trigger] next_grid(
                f,
            )[i][j] == next_grid(g)[i][j],
{
    assert forall|r: int, c: int| counts(f, r, c) == counts(g, r, c) by {
        if 0 < r < height(f) && 0 < c < width(f) {
            assert(f[r][c] == g[r][c]);
        }
    }
}

} // verus!
