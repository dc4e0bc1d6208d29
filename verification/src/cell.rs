use vstd::prelude::*;

use crate::style::Style;
use crate::style::merged;

verus! {

/// One terminal cell: the character it shows and the style it is drawn with.
#[derive(Debug, Clone, Copy, PartialEq, Eq)]
pub struct Cell {
    pub symbol: char,
    pub style: Style,
}

/// The cell showing `ch` in the style `paint`.
pub open spec fn cell_of(ch: char, paint: Style) -> Cell {
    Cell { symbol: ch, style: paint }
}

/// `c` with `patch` merged onto its style: `patch`'s explicit attributes win,
/// its unset attributes fall through to the cell's own style.
pub open spec fn restyled(c: Cell, patch: Style) -> Cell {
    Cell { symbol: c.symbol, style: merged(patch, c.style) }
}

impl Cell {
    /// Build one cell.
    pub fn new(ch: char, paint: Style) -> (r: Cell)
        ensures
            r == cell_of(ch, paint),
    {
        Cell { symbol: ch, style: paint }
    }
}

/// The characters of `s`, each paired with the single style `paint`.
pub open spec fn styled_cells(s: Seq<char>, paint: Style) -> Seq<Cell> {
    Seq::new(s.len(), |i: int| cell_of(s[i], paint))
}

/// `cells` with `patch` merged onto every cell's style.
pub open spec fn patched_cells(cells: Seq<Cell>, patch: Style) -> Seq<Cell> {
    Seq::new(cells.len(), |i: int| restyled(cells[i], patch))
}

} // verus!
