use vstd::math::min;
use vstd::prelude::*;

use crate::cell::Cell;
use crate::cell::styled_cells;
use crate::style::Style;
use crate::text::Line;

verus! {

/// A rectangular region of the terminal: origin and extent in cell columns
/// and rows.
#[derive(Debug, Clone, Copy, PartialEq, Eq)]
pub struct Rect {
    pub x: u16,
    pub y: u16,
    pub width: u16,
    pub height: u16,
}

/// A grid of terminal cells, row-major: the cell at column `cx` of row `cy`
/// sits at index `cy * width + cx`.
#[derive(Debug)]
pub struct Buffer {
    pub width: u16,
    pub height: u16,
    pub cells: Vec<Cell>,
}

/// How many cells a write of `len` cells at column `x`, capped at `max`,
/// actually places in `buf`: the cap and the buffer's right edge both clip.
pub open spec fn write_count(buf: Buffer, x: int, len: int, max: int) -> int {
    min(min(len, max), buf.width - x)
}

/// The cell at `(cx, cy)` after `cells`, capped at `max`, is written into
/// `pre` starting at `(x, y)`: a cell under the clipped write takes its
/// character and style from `cells`, every other cell keeps its old content.
pub open spec fn cell_after_write(
    pre: Buffer,
    x: int,
    y: int,
    cells: Seq<Cell>,
    max: int,
    cx: int,
    cy: int,
) -> Cell {
    if cy == y && x <= cx < x + write_count(pre, x, cells.len() as int, max) {
        cells[cx - x]
    } else {
        pre.cell(cx, cy)
    }
}

/// A grid index is within the cell vector.
proof fn lemma_grid_index(width: int, height: int, cx: int, cy: int)
    requires
        0 <= cx < width,
        0 <= cy < height,
    ensures
        0 <= cy * width + cx < width * height,
{
    assert(0 <= cy * width + cx < width * height) by (nonlinear_arith)
        requires
            0 <= cx < width,
            0 <= cy < height,
    ;
}

/// Distinct in-bounds coordinates have distinct grid indices.
proof fn lemma_grid_index_injective(width: int, x1: int, y1: int, x2: int, y2: int)
    requires
        0 <= x1 < width,
        0 <= x2 < width,
        0 <= y1,
        0 <= y2,
        y1 * width + x1 == y2 * width + x2,
    ensures
        x1 == x2 && y1 == y2,
{
    assert(x1 == x2 && y1 == y2) by (nonlinear_arith)
        requires
            0 <= x1 < width,
            0 <= x2 < width,
            0 <= y1,
            0 <= y2,
            y1 * width + x1 == y2 * width + x2,
    ;
}




impl Buffer {
    /// The cell vector holds exactly one cell per grid position.
    pub open spec fn wf(self) -> bool {
        self.cells@.len() == self.width as int * self.height as int
    }

    /// Whether `(cx, cy)` is a cell of this buffer.
    pub open spec fn in_bounds(self, cx: int, cy: int) -> bool {
        0 <= cx < self.width as int && 0 <= cy < self.height as int
    }

    /// The cell at column `cx` of row `cy`.
    pub open spec fn cell(self, cx: int, cy: int) -> Cell {
        self.cells@[cy * self.width as int + cx]
    }

    /// A buffer of blank cells: every cell shows a space with no style set.
    pub fn new(width: u16, height: u16) -> (r: Buffer)
        ensures
            r.wf(),
            r.width == width,
            r.height == height,
            forall|cx: int, cy: int|
                r.in_bounds(cx, cy) ==> r.cell(cx, cy) == (Cell {
                    symbol: ' ',
                    style: Style { fg: None, bg: None, bold: None },
                }),
    {
        proof {
            assert((width as int) * (height as int) <= 0xffff * 0xffff) by (nonlinear_arith)
                requires
                    width as int <= 0xffff,
                    height as int <= 0xffff,
                    0 <= width as int,
                    0 <= height as int,
            ;
        }
        let total: usize = (width as usize) * (height as usize);
        let blank = Cell { symbol: ' ', style: Style { fg: None, bg: None, bold: None } };
        let mut cells: Vec<Cell> = Vec::new();
        let mut i: usize = 0;
        while i < total
            invariant
                i <= total,
                cells@.len() == i,
                forall|j: int| 0 <= j < i ==> cells@[j] == blank,
            decreases total - i,
        {
            cells.push(blank);
            i += 1;
        }
        let r = Buffer { width, height, cells };
        proof {
            assert forall|cx: int, cy: int| r.in_bounds(cx, cy) implies r.cell(cx, cy) == blank by {
                lemma_grid_index(width as int, height as int, cx, cy);
            }
        }
        r
    }

    /// Read one cell.
    pub fn get(&self, x: u16, y: u16) -> (r: Cell)
        requires
            self.wf(),
            self.in_bounds(x as int, y as int),
        ensures
            r == self.cell(x as int, y as int),
    {
        // The length call brings the cell count's usize bound into scope for
        // the index arithmetic below.
        let total: usize = self.cells.len();
        proof {
            lemma_grid_index(self.width as int, self.height as int, x as int, y as int);
            assert(total == self.cells@.len());
        }
        let idx: usize = (y as usize) * (self.width as usize) + (x as usize);
        self.cells[idx]
    }

    /// Write `cells`, capped at `max` of them, into row `y` starting at
    /// column `x`, clipping silently at the buffer's edges.
    fn write_cells(&mut self, x: u16, y: u16, src: &Vec<Cell>, max: usize)
        requires
            old(self).wf(),
        ensures
            final(self).wf(),
            final(self).width == old(self).width,
            final(self).height == old(self).height,
            forall|cx: int, cy: int|
                final(self).in_bounds(cx, cy) ==> final(self).cell(cx, cy) == cell_after_write(
                    *old(self),
                    x as int,
                    y as int,
                    src@,
                    max as int,
                    cx,
                    cy,
                ),
    {
        if y < self.height && x < self.width {
            // The length call brings the cell count's usize bound into scope
            // for the index arithmetic below.
            let total: usize = self.cells.len();
            let avail: usize = (self.width - x) as usize;
            let mut count: usize = src.len();
            if max < count {
                count = max;
            }
            if avail < count {
                count = avail;
            }
            proof {
                assert((y as int) * (self.width as int) + (self.width as int) <= (
                self.width as int) * (self.height as int)) by (nonlinear_arith)
                    requires
                        0 <= (y as int),
                        (y as int) < (self.height as int),
                        0 <= (self.width as int),
                ;
                assert(self.cells@.len() <= usize::MAX);
            }
            let row_base: usize = (y as usize) * (self.width as usize);
            let mut i: usize = 0;
            while i < count
                invariant
                    self.wf(),
                    self.width == old(self).width,
                    self.height == old(self).height,
                    x < self.width,
                    y < self.height,
                    i <= count,
                    count <= src@.len(),
                    count == write_count(*old(self), x as int, src@.len() as int, max as int),
                    x as int + count <= self.width as int,
                    row_base == y as int * self.width as int,
                    row_base + self.width as int <= self.cells@.len(),
                    self.cells@.len() <= usize::MAX,
                    forall|cx: int, cy: int|
                        self.in_bounds(cx, cy) ==> self.cell(cx, cy) == (if cy == y as int && x
                            as int <= cx < x as int + i {
                            src@[cx - x as int]
                        } else {
                            old(self).cell(cx, cy)
                        }),
                decreases count - i,
            {
                let ghost prev = *self;
                let idx: usize = row_base + (x as usize) + i;
                let c = src[i];
                self.cells[idx] = c;
                proof {
                    assert(self.cells@ == prev.cells@.update(idx as int, c));
                    assert forall|cx: int, cy: int| self.in_bounds(cx, cy) implies self.cell(
                        cx,
                        cy,
                    ) == (if cy == y as int && x as int <= cx < x as int + (i + 1) {
                        src@[cx - x as int]
                    } else {
                        old(self).cell(cx, cy)
                    }) by {
                        lemma_grid_index(prev.width as int, prev.height as int, cx, cy);
                        let jj = cy * prev.width as int + cx;
                        assert(prev.cell(cx, cy) == prev.cells@[jj]);
                        if jj == idx as int {
                            lemma_grid_index_injective(
                                prev.width as int,
                                cx,
                                cy,
                                x as int + i as int,
                                y as int,
                            );
                            assert(cx == x as int + i && cy == y as int);
                            assert(self.cells@[jj] == c);
                        } else {
                            assert(self.cells@[jj] == prev.cells@[jj]);
                        }
                    }
                }
                i += 1;
            }
        }
    }

    /// Write up to `max` characters of `text` with one style, starting at
    /// `(x, y)` and clipping silently at the buffer's edges.
    pub fn set_stringn(&mut self, x: u16, y: u16, text: &Vec<char>, max: usize, text_style: Style)
        requires
            old(self).wf(),
        ensures
            final(self).wf(),
            final(self).width == old(self).width,
            final(self).height == old(self).height,
            forall|cx: int, cy: int|
                final(self).in_bounds(cx, cy) ==> final(self).cell(cx, cy) == cell_after_write(
                    *old(self),
                    x as int,
                    y as int,
                    styled_cells(text@, text_style),
                    max as int,
                    cx,
                    cy,
                ),
    {
        let mut row: Vec<Cell> = Vec::new();
        let mut i: usize = 0;
        let n: usize = text.len();
        while i < n
            invariant
                i <= n,
                n == text@.len(),
                row@.len() == i,
                forall|j: int| 0 <= j < i ==> row@[j] == styled_cells(text@, text_style)[j],
            decreases n - i,
        {
            let ch = text[i];
            row.push(Cell::new(ch, text_style));
            i += 1;
        }
        proof {
            assert(row@ =~= styled_cells(text@, text_style));
        }
        self.write_cells(x, y, &row, max);
    }

    /// Write all of `text` with one style, starting at `(x, y)` and clipping
    /// silently at the buffer's edges.
    pub fn set_string(&mut self, x: u16, y: u16, text: &Vec<char>, text_style: Style)
        requires
            old(self).wf(),
        ensures
            final(self).wf(),
            final(self).width == old(self).width,
            final(self).height == old(self).height,
            forall|cx: int, cy: int|
                final(self).in_bounds(cx, cy) ==> final(self).cell(cx, cy) == cell_after_write(
                    *old(self),
                    x as int,
                    y as int,
                    styled_cells(text@, text_style),
                    text@.len() as int,
                    cx,
                    cy,
                ),
    {
        let max: usize = text.len();
        self.set_stringn(x, y, text, max, text_style);
    }

    /// Write a styled line, clipped to `max_width` columns, starting at
    /// `(x, y)` and clipping silently at the buffer's edges.
    pub fn set_line(&mut self, x: u16, y: u16, line: &Line, max_width: u16)
        requires
            old(self).wf(),
        ensures
            final(self).wf(),
            final(self).width == old(self).width,
            final(self).height == old(self).height,
            forall|cx: int, cy: int|
                final(self).in_bounds(cx, cy) ==> final(self).cell(cx, cy) == cell_after_write(
                    *old(self),
                    x as int,
                    y as int,
                    line.flat(),
                    max_width as int,
                    cx,
                    cy,
                ),
    {
        let row = line.flatten();
        self.write_cells(x, y, &row, max_width as usize);
    }
}

} // verus!
