//! The mathematical model: a grid of cells, the neighbour count and the rule.

use vstd::prelude::*;

verus! {

/// The cells of one generation as they are stored: rows of cells, each cell
/// 0 (dead) or 1 (alive).
pub type Frame = Vec<Vec<i32>>;

/// The cells of one generation as a mathematical value.
pub type Grid = Seq<Seq<i32>>;

/// The grid that a frame holds.
pub open spec fn grid_of(frame: &Frame) -> Grid {
    frame@.map_values(|row: Vec<i32>| row@)
}

/// Number of rows.
pub open spec fn height(g: Grid) -> int {
    g.len() as int
}

/// Number of columns, read off the first row.
pub open spec fn width(g: Grid) -> int {
    if g.len() > 0 {
        g[0].len() as int
    } else {
        0
    }
}

/// A grid that a board can hold: at least one row and one column, every row
/// of the same length, every cell 0 or 1.
pub open spec fn is_board(g: Grid) -> bool {
    &&& height(g) >= 1
    &&& width(g) >= 1
    &&& forall|r: int| 0 <= r < height(g) ==> (#[trigger] g[r]).len() == width(g)
    &&& forall|r: int, c: int|
        0 <= r < height(g) && 0 <= c < width(g) ==> (#[trigger] g[r][c] == 0 || g[r][c] == 1)
}

/// Whether the cell at row `r`, column `c` is alive. A position off the grid
/// is dead.
pub open spec fn alive(g: Grid, r: int, c: int) -> bool {
    0 <= r < height(g) && 0 <= c < width(g) && g[r][c] != 0
}

/// Whether position (`r`, `c`) adds to a neighbour count. Only an alive cell
/// with `0 < r < height` and `0 < c < width` does: a cell in the first row or
/// in the first column is never counted, whatever it holds.
pub open spec fn counts(g: Grid, r: int, c: int) -> bool {
    r > 0 && c > 0 && alive(g, r, c)
}

/// 1 for `true`, 0 for `false`.
pub open spec fn unit(b: bool) -> int {
    if b {
        1
    } else {
        0
    }
}

/// What the three positions of row `r` around column `j` add to a count.
pub open spec fn row_count(g: Grid, r: int, j: int) -> int {
    unit(counts(g, r, j - 1)) + unit(counts(g, r, j)) + unit(counts(g, r, j + 1))
}

/// What the nine positions of the block centred at (`i`, `j`) add to a count,
/// the centre included.
pub open spec fn block_count(g: Grid, i: int, j: int) -> int {
    row_count(g, i - 1, j) + row_count(g, i, j) + row_count(g, i + 1, j)
}

/// The neighbour count that the rule is applied to: the block's count, less
/// one where the centre is alive. The one is taken off an alive centre even
/// where the centre itself was not counted, so the result may be -1.
pub open spec fn neighbour_count(g: Grid, i: int, j: int) -> int {
    block_count(g, i, j) - unit(alive(g, i, j))
}

/// The rule of the game: an alive cell lives on with two or three neighbours,
/// a dead cell comes alive with exactly three.
pub open spec fn lives_on(is_alive: bool, n: int) -> bool {
    if is_alive {
        n == 2 || n == 3
    } else {
        n == 3
    }
}

/// The cell at (`i`, `j`) one step later.
pub open spec fn next_cell(g: Grid, i: int, j: int) -> i32 {
    if lives_on(alive(g, i, j), neighbour_count(g, i, j)) {
        1
    } else {
        0
    }
}

/// The grid one step later: of the same height and width, each cell given by
/// [`next_cell`] on the grid before the step.
pub open spec fn next_grid(g: Grid) -> Grid {
    Seq::new(g.len(), |i: int| Seq::new(width(g) as nat, |j: int| next_cell(g, i, j)))
}

/// How many of the eight positions around (`i`, `j`) hold an alive cell.
pub open spec fn adjacent_alive(g: Grid, i: int, j: int) -> int {
    unit(alive(g, i - 1, j - 1)) + unit(alive(g, i - 1, j)) + unit(alive(g, i - 1, j + 1))
        + unit(alive(g, i, j - 1)) + unit(alive(g, i, j + 1))
        + unit(alive(g, i + 1, j - 1)) + unit(alive(g, i + 1, j)) + unit(alive(g, i + 1, j + 1))
}

/// Whether the first row and the first column hide none of the alive cells
/// around (`i`, `j`): each of them lies below the first row and right of the
/// first column, where it is counted.
pub open spec fn none_hidden(g: Grid, i: int, j: int) -> bool {
    forall|r: int, c: int|
        i - 1 <= r <= i + 1 && j - 1 <= c <= j + 1 && !(r == i && c == j) && #[trigger] alive(
            g,
            r,
            c,
        ) ==> r > 0 && c > 0
}

} // verus!
