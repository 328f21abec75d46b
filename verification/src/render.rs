//! What the grid and the stack look like as text for a terminal.

use crate::machine::State;
use crate::text::{decimal_text, printable};
use vstd::prelude::*;

verus! {

/// The escape sequence that turns the background white.
pub open spec fn highlight_on() -> Seq<char> {
    seq!['\x1b', '[', '4', '7', 'm']
}

/// The escape sequence that resets colours and formatting.
pub open spec fn highlight_off() -> Seq<char> {
    seq!['\x1b', '[', '0', 'm']
}

/// One cell as text: a bar, then the cell's printable character, which is
/// wrapped in the highlight if the pointer is on the cell.
pub open spec fn cell_text(s: State, x: int, y: int) -> Seq<char> {
    if s.x == x && s.y == y {
        seq!['|'] + highlight_on() + seq![printable(s.cell(x, y))] + highlight_off()
    } else {
        seq!['|', printable(s.cell(x, y))]
    }
}

/// The first `n` cells of row `y` as text, from left to right.
pub open spec fn row_cells_text(s: State, y: int, n: int) -> Seq<char>
    decreases n,
{
    if n <= 0 {
        Seq::empty()
    } else {
        row_cells_text(s, y, n - 1) + cell_text(s, n - 1, y)
    }
}

/// Row `y` as text: its cells, a closing bar and a line feed.
pub open spec fn row_text(s: State, y: int) -> Seq<char> {
    row_cells_text(s, y, s.width) + seq!['|', '\n']
}

/// The first `n` rows as text, from top to bottom.
pub open spec fn rows_text(s: State, n: int) -> Seq<char>
    decreases n,
{
    if n <= 0 {
        Seq::empty()
    } else {
        rows_text(s, n - 1) + row_text(s, n - 1)
    }
}

/// The whole grid as text, one line per row.
pub open spec fn board_text(s: State) -> Seq<char> {
    rows_text(s, s.height)
}

/// The values of a stack as text, from the top down, each as a space and
/// its decimal numeral.
pub open spec fn stack_items_text(stack: Seq<u8>) -> Seq<char>
    decreases stack.len(),
{
    if stack.len() == 0 {
        Seq::empty()
    } else {
        seq![' '] + decimal_text(stack.last() as nat) + stack_items_text(stack.drop_last())
    }
}

/// A stack as text: its values from the top down, in square brackets.
pub open spec fn stack_text(stack: Seq<u8>) -> Seq<char> {
    seq!['['] + stack_items_text(stack) + seq![']']
}

} // verus!
