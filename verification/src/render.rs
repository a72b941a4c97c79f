//! The board as text: a border, one line for each row, the border again.

use crate::board::Board;
use crate::grid::{grid_of, height, width, Grid};
use vstd::prelude::*;

verus! {

/// The glyph of an alive cell.
pub const ALIVE: char = '@';

/// The glyph of a dead cell.
pub const DEAD: char = ' ';

/// The glyph of a cell.
pub open spec fn glyph(cell: i32) -> char {
    if cell != 0 {
        ALIVE
    } else {
        DEAD
    }
}

/// The border line of a board of `cols` columns: a space, `cols - 1` dashes,
/// a space, and the end of the line. The line is one dash short of the rows
/// between the two borders.
pub open spec fn border_text(cols: int) -> Seq<char> {
    seq![' '] + Seq::new((cols - 1) as nat, |k: int| '-') + seq![' ', '\n']
}

/// The line of one row: a bar, the glyph of each cell, a bar, and the end of
/// the line.
pub open spec fn row_text(row: Seq<i32>) -> Seq<char> {
    seq!['|'] + row.map_values(|cell: i32| glyph(cell)) + seq!['|', '\n']
}

/// The lines of the first `n` rows, one after the other.
pub open spec fn rows_text(g: Grid, n: int) -> Seq<char>
    decreases n,
{
    if n <= 0 {
        Seq::empty()
    } else {
        rows_text(g, n - 1) + row_text(g[n - 1])
    }
}

/// The text of a whole board: the border, the line of each row from the first
/// to the last, and the border again.
pub open spec fn board_text(g: Grid) -> Seq<char> {
    border_text(width(g)) + rows_text(g, height(g)) + border_text(width(g))
}

/// Appends the border line of a board of `cols` columns.
fn push_border(text: &mut Vec<char>, cols: usize)
    requires
        cols >= 1,
    ensures
        final(text)@ == old(text)@ + border_text(cols as int),
{
    text.push(' ');
    let mut k: usize = 0;
    while k < cols - 1
        invariant
            cols >= 1,
            k <= cols - 1,
            text@ == old(text)@ + seq![' '] + Seq::new(k as nat, |i: int| '-'),
        decreases cols - 1 - k,
    {
        text.push('-');
        k = k + 1;
    }
    text.push(' ');
    text.push('\n');
}

/// Appends the line of one row.
fn push_row(text: &mut Vec<char>, row: &Vec<i32>)
    ensures
        final(text)@ == old(text)@ + row_text(row@),
{
    text.push('|');
    let mut k: usize = 0;
    while k < row.len()
        invariant
            k <= row@.len(),
            text@ == old(text)@ + seq!['|'] + row@.take(k as int).map_values(
                |cell: i32| glyph(cell),
            ),
        decreases row@.len() - k,
    {
        if row[k] != 0 {
            text.push(ALIVE);
        } else {
            text.push(DEAD);
        }
        k = k + 1;
    }
    assert(row@.take(k as int) == row@);
    text.push('|');
    text.push('\n');
}

/// The board as text, ready to be written out: see [`board_text`].
pub fn render(board: &Board) -> (text: Vec<char>)
    ensures
        text@ == board_text(board@),
{
    let items = board.items();
    let rows = board.rows();
    let cols = board.cols();
    let mut text: Vec<char> = Vec::new();
    push_border(&mut text, cols);
    let mut r: usize = 0;
    while r < rows
        invariant
            r <= rows,
            rows == height(board@),
            cols == width(board@),
            grid_of(items) == board@,
            text@ == border_text(cols as int) + rows_text(board@, r as int),
        decreases rows - r,
    {
        assert(board@[r as int] == items@[r as int]@);
        push_row(&mut text, &items[r]);
        r = r + 1;
    }
    push_border(&mut text, cols);
    text
}

} // verus!
