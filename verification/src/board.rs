//! The board: a frame together with its declared number of rows and columns.

use crate::grid::{grid_of, height, is_board, next_grid, width, Frame, Grid};
use crate::step::update;
use vstd::prelude::*;

verus! {

/// A grid of cells with its dimensions. Every board holds at least one row
/// and one column, rows of equal length and cells that are 0 or 1, and its
/// declared dimensions are those of its frame.
#[derive(Debug)]
pub struct Board {
    items: Frame,
    rows: usize,
    cols: usize,
}

impl View for Board {
    type V = Grid;

    closed spec fn view(&self) -> Grid {
        grid_of(&self.items)
    }
}

impl Board {
    #[verifier::type_invariant]
    spec fn inv(&self) -> bool {
        &&& is_board(grid_of(&self.items))
        &&& self.rows == height(grid_of(&self.items))
        &&& self.cols == width(grid_of(&self.items))
    }

    /// Puts a board together from parts that are known to fit.
    pub(crate) fn from_parts(items: Frame, rows: usize, cols: usize) -> (board: Board)
        requires
            is_board(grid_of(&items)),
            rows == height(grid_of(&items)),
            cols == width(grid_of(&items)),
        ensures
            board@ == grid_of(&items),
    {
        Board { items, rows, cols }
    }

    /// The board that holds the given frame, where the frame is one that a
    /// board can hold: at least one row and one column, rows of equal length,
    /// every cell 0 or 1. `None` for any other frame.
    pub fn from_frame(items: Frame) -> (res: Option<Board>)
        ensures
            res is Some <==> is_board(grid_of(&items)),
            res matches Some(board) ==> board@ == grid_of(&items),
    {
        let ghost g = grid_of(&items);
        let rows = items.len();
        if rows == 0 {
            return None;
        }
        let cols = items[0].len();
        if cols == 0 {
            return None;
        }
        let mut r: usize = 0;
        while r < rows
            invariant
                r <= rows,
                rows == items@.len(),
                g == grid_of(&items),
                rows == height(g),
                cols == width(g),
                forall|k: int| 0 <= k < r ==> (#[trigger] g[k]).len() == cols,
                forall|k: int, c: int|
                    0 <= k < r && 0 <= c < cols ==> (#[trigger] g[k][c] == 0 || g[k][c] == 1),
            decreases rows - r,
        {
            assert(g[r as int] == items@[r as int]@);
            if items[r].len() != cols {
                return None;
            }
            let mut c: usize = 0;
            while c < cols
                invariant
                    c <= cols,
                    r < rows,
                    rows == items@.len(),
                    g == grid_of(&items),
                    rows == height(g),
                    cols == width(g),
                    g[r as int] == items@[r as int]@,
                    g[r as int].len() == cols,
                    forall|k: int|
                        0 <= k < c ==> (#[trigger] g[r as int][k] == 0 || g[r as int][k] == 1),
                decreases cols - c,
            {
                let cell = items[r][c];
                if cell != 0 && cell != 1 {
                    assert(!(g[r as int][c as int] == 0 || g[r as int][c as int] == 1));
                    return None;
                }
                c = c + 1;
            }
            r = r + 1;
        }
        Some(Board { items, rows, cols })
    }

    /// Replaces the board's frame by the one that follows it. The board
    /// keeps its dimensions.
    pub fn step(&mut self)
        ensures
            final(self)@ == next_grid(old(self)@),
            is_board(final(self)@),
            height(final(self)@) == height(old(self)@),
            width(final(self)@) == width(old(self)@),
    {
        proof {
            use_type_invariant(&*self);
        }
        let next = update(self);
        self.items = next;
    }

    /// The number of rows.
    pub fn rows(&self) -> (rows: usize)
        ensures
            rows == height(self@),
            is_board(self@),
    {
        proof {
            use_type_invariant(self);
        }
        self.rows
    }

    /// The number of columns.
    pub fn cols(&self) -> (cols: usize)
        ensures
            cols == width(self@),
            is_board(self@),
    {
        proof {
            use_type_invariant(self);
        }
        self.cols
    }

    /// The cells, row by row.
    pub fn items(&self) -> (frame: &Frame)
        ensures
            grid_of(frame) == self@,
            is_board(self@),
    {
        proof {
            use_type_invariant(self);
        }
        &self.items
    }
}

} // verus!
