//! The visible character grid: a rows-by-columns matrix of attributed
//! characters with a cursor that always stays in bounds. Writes wrap at the
//! right edge and scroll at the bottom row; clears, moves and resizes clamp
//! rather than fail.

use vstd::prelude::*;
use crate::ansi::{CharAttributes, CursorPosition, default_attributes};

verus! {

/// One grid cell: a character and the attributes it was printed with.
#[derive(Debug, Clone, Copy, PartialEq, Eq)]
pub struct TerminalChar {
    pub character: char,
    pub attributes: CharAttributes,
}

/// The default cell: a space with no attributes.
pub open spec fn default_cell() -> TerminalChar {
    TerminalChar { character: ' ', attributes: default_attributes() }
}

impl TerminalChar {
    /// The default cell: a space with no attributes.
    pub fn blank() -> (r: TerminalChar)
        ensures
            r == default_cell(),
    {
        TerminalChar { character: ' ', attributes: CharAttributes::plain() }
    }
}

impl Default for TerminalChar {
    fn default() -> (r: TerminalChar)
        ensures
            r == default_cell(),
    {
        TerminalChar::blank()
    }
}

/// The mathematical image of a grid: its cells, column count and cursor.
pub struct GridModel {
    pub cells: Seq<Seq<TerminalChar>>,
    pub cols: int,
    pub row: int,
    pub col: int,
}

/// A row of `cols` default cells.
pub open spec fn blank_row(cols: int) -> Seq<TerminalChar> {
    Seq::new(cols as nat, |i: int| default_cell())
}

/// A well-formed grid model: positive bounded dimensions, every row exactly
/// `cols` wide, and the cursor inside the grid.
pub open spec fn grid_wf(m: GridModel) -> bool {
    &&& 1 <= m.cols <= 0xFFFF
    &&& 1 <= m.cells.len() <= 0xFFFF
    &&& forall|i: int| 0 <= i < m.cells.len() ==> (#[trigger] m.cells[i]).len() == m.cols
    &&& 0 <= m.row < m.cells.len()
    &&& 0 <= m.col < m.cols
}

/// A fresh grid: all default cells, cursor at the origin.
pub open spec fn spec_new_grid(cols: int, rows: int) -> GridModel {
    GridModel {
        cells: Seq::new(rows as nat, |i: int| blank_row(cols)),
        cols: cols,
        row: 0,
        col: 0,
    }
}

/// Writing one character: place it at the cursor, advance, wrap to the next
/// row at the right edge, and scroll one row at the bottom right corner.
pub open spec fn spec_write_char(m: GridModel, ch: char, a: CharAttributes) -> GridModel {
    let put = m.cells.update(m.row, m.cells[m.row].update(m.col, TerminalChar {
        character: ch,
        attributes: a,
    }));
    if m.col + 1 < m.cols {
        GridModel { cells: put, col: m.col + 1, ..m }
    } else if m.row + 1 < m.cells.len() {
        GridModel { cells: put, row: m.row + 1, col: 0, ..m }
    } else {
        GridModel { cells: put.drop_first().push(blank_row(m.cols)), col: 0, ..m }
    }
}

/// Absolute cursor motion, clamped into the grid.
pub open spec fn spec_move_cursor(m: GridModel, row: int, col: int) -> GridModel {
    GridModel {
        row: if row < m.cells.len() - 1 {
            row
        } else {
            m.cells.len() - 1
        },
        col: if col < m.cols - 1 {
            col
        } else {
            m.cols - 1
        },
        ..m
    }
}

/// Relative cursor motion, clamped into the grid.
pub open spec fn spec_move_rel(m: GridModel, dr: int, dc: int) -> GridModel {
    let nr = m.row + dr;
    let nc = m.col + dc;
    GridModel {
        row: if nr < 0 {
            0
        } else if nr > m.cells.len() - 1 {
            m.cells.len() - 1
        } else {
            nr
        },
        col: if nc < 0 {
            0
        } else if nc > m.cols - 1 {
            m.cols - 1
        } else {
            nc
        },
        ..m
    }
}

/// Clearing the screen: every cell default, cursor at the origin.
pub open spec fn spec_clear_screen(m: GridModel) -> GridModel {
    GridModel {
        cells: Seq::new(m.cells.len(), |i: int| blank_row(m.cols)),
        row: 0,
        col: 0,
        ..m
    }
}

/// Clearing the cursor's line: that row becomes default cells.
pub open spec fn spec_clear_line(m: GridModel) -> GridModel {
    GridModel { cells: m.cells.update(m.row, blank_row(m.cols)), ..m }
}

/// A row with every cell from `from` on reset to the default.
pub open spec fn blank_tail(row: Seq<TerminalChar>, from: int) -> Seq<TerminalChar> {
    Seq::new(
        row.len(),
        |i: int|
            if i >= from {
                default_cell()
            } else {
                row[i]
            },
    )
}

/// A row with every cell up to and including `to` reset to the default.
pub open spec fn blank_head(row: Seq<TerminalChar>, to: int) -> Seq<TerminalChar> {
    Seq::new(
        row.len(),
        |i: int|
            if i <= to {
                default_cell()
            } else {
                row[i]
            },
    )
}

/// Erasing from the cursor to the end of its line, the cursor cell
/// included; the cursor stays put.
pub open spec fn spec_clear_line_from(m: GridModel) -> GridModel {
    GridModel { cells: m.cells.update(m.row, blank_tail(m.cells[m.row], m.col)), ..m }
}

/// Erasing from the start of the line to the cursor, the cursor cell
/// included; the cursor stays put.
pub open spec fn spec_clear_line_to(m: GridModel) -> GridModel {
    GridModel { cells: m.cells.update(m.row, blank_head(m.cells[m.row], m.col)), ..m }
}

/// Erasing from the cursor to the end of the screen: the rest of the
/// cursor's line and every row below it; the cursor stays put.
pub open spec fn spec_clear_from_cursor(m: GridModel) -> GridModel {
    GridModel {
        cells: Seq::new(
            m.cells.len(),
            |r: int|
                if r < m.row {
                    m.cells[r]
                } else if r == m.row {
                    blank_tail(m.cells[r], m.col)
                } else {
                    blank_row(m.cols)
                },
        ),
        ..m
    }
}

/// Erasing from the top of the screen to the cursor: every row above the
/// cursor's line and its start through the cursor; the cursor stays put.
pub open spec fn spec_clear_to_cursor(m: GridModel) -> GridModel {
    GridModel {
        cells: Seq::new(
            m.cells.len(),
            |r: int|
                if r < m.row {
                    blank_row(m.cols)
                } else if r == m.row {
                    blank_head(m.cells[r], m.col)
                } else {
                    m.cells[r]
                },
        ),
        ..m
    }
}

/// Scrolling up: evict `n` top rows and append `n` blank rows; scrolling by
/// the whole grid or more clears the screen instead.
pub open spec fn spec_scroll_up(m: GridModel, n: int) -> GridModel {
    if n >= m.cells.len() {
        spec_clear_screen(m)
    } else {
        GridModel { cells: m.cells.skip(n) + Seq::new(n as nat, |i: int| blank_row(m.cols)), ..m }
    }
}

/// One row truncated or padded with default cells to `cols` columns.
pub open spec fn fit_row(row: Seq<TerminalChar>, cols: int) -> Seq<TerminalChar> {
    if cols <= row.len() {
        row.take(cols)
    } else {
        row + Seq::new((cols - row.len()) as nat, |i: int| default_cell())
    }
}

/// Resizing: every row truncated or padded to the new column count, rows
/// truncated or appended to the new row count, cursor re-clamped.
pub open spec fn spec_resize(m: GridModel, new_cols: int, new_rows: int) -> GridModel {
    let fitted = m.cells.map_values(|r: Seq<TerminalChar>| fit_row(r, new_cols));
    let cells = if new_rows <= fitted.len() {
        fitted.take(new_rows)
    } else {
        fitted + Seq::new((new_rows - fitted.len()) as nat, |i: int| blank_row(new_cols))
    };
    GridModel {
        cells: cells,
        cols: new_cols,
        row: if m.row < new_rows - 1 {
            m.row
        } else {
            new_rows - 1
        },
        col: if m.col < new_cols - 1 {
            m.col
        } else {
            new_cols - 1
        },
    }
}

/// The visible character matrix with its cursor and one saved cursor slot.
#[derive(Debug, Clone)]
pub struct TerminalGrid {
    pub rows: Vec<Vec<TerminalChar>>,
    pub cols: usize,
    pub cursor: CursorPosition,
    pub saved_cursor: Option<CursorPosition>,
}

impl TerminalGrid {
    /// The grid this value denotes.
    pub open spec fn model(&self) -> GridModel {
        GridModel {
            cells: self.rows@.map_values(|r: Vec<TerminalChar>| r@),
            cols: self.cols as int,
            row: self.cursor.row as int,
            col: self.cursor.col as int,
        }
    }

    /// Well-formedness of the stored grid.
    pub open spec fn wf(&self) -> bool {
        grid_wf(self.model())
    }

    /// A fresh grid of default cells with the cursor at the origin.
    pub fn new(cols: usize, rows: usize) -> (g: TerminalGrid)
        requires
            1 <= cols <= 0xFFFF,
            1 <= rows <= 0xFFFF,
        ensures
            g.wf(),
            g.model() == spec_new_grid(cols as int, rows as int),
            g.saved_cursor is None,
    {
        let mut grid_rows: Vec<Vec<TerminalChar>> = Vec::new();
        let mut i: usize = 0;
        while i < rows
            invariant
                0 <= i <= rows,
                cols <= 0xFFFF,
                grid_rows@.len() == i,
                forall|j: int| 0 <= j < i ==> (#[trigger] grid_rows@[j])@ == blank_row(cols as int),
            decreases rows - i,
        {
            let row = blank_cells(cols);
            grid_rows.push(row);
            i = i + 1;
        }
        let g = TerminalGrid {
            rows: grid_rows,
            cols,
            cursor: CursorPosition { row: 0, col: 0 },
            saved_cursor: None,
        };
        proof {
            assert(g.model().cells =~= spec_new_grid(cols as int, rows as int).cells);
        }
        g
    }

    /// Write one character at the cursor with the given attributes, then
    /// advance, wrapping and scrolling per the grid's invariants.
    pub fn write_char(&mut self, ch: char, attributes: &CharAttributes)
        requires
            old(self).wf(),
        ensures
            final(self).wf(),
            final(self).model() == spec_write_char(old(self).model(), ch, *attributes),
            final(self).saved_cursor == old(self).saved_cursor,
    {
        let ghost m0 = self.model();
        let r = self.cursor.row as usize;
        let c = self.cursor.col as usize;
        let cell = TerminalChar { character: ch, attributes: *attributes };
        proof {
            assert(self.rows@[r as int]@ == m0.cells[r as int]);
            assert(self.rows@[r as int]@.len() == m0.cols);
        }
        let row_ref = &mut self.rows[r];
        row_ref.set(c, cell);
        proof {
            assert(self.model().cells =~= m0.cells.update(m0.row, m0.cells[m0.row].update(
                m0.col,
                cell,
            )));
        }
        let ghost put = self.model().cells;
        if c + 1 < self.cols {
            self.cursor.col = self.cursor.col + 1;
        } else if r + 1 < self.rows.len() {
            self.cursor.row = self.cursor.row + 1;
            self.cursor.col = 0;
        } else {
            self.cursor.col = 0;
            let blank = blank_cells(self.cols);
            self.rows.remove(0);
            self.rows.push(blank);
            proof {
                assert(self.model().cells =~= put.drop_first().push(blank_row(m0.cols)));
            }
        }
    }

    /// Move the cursor to an absolute position, clamped into bounds.
    pub fn move_cursor(&mut self, row: u16, col: u16)
        requires
            old(self).wf(),
        ensures
            final(self).wf(),
            final(self).model() == spec_move_cursor(old(self).model(), row as int, col as int),
            final(self).saved_cursor == old(self).saved_cursor,
    {
        let max_row = (self.rows.len() - 1) as u16;
        let max_col = (self.cols - 1) as u16;
        self.cursor.row = if row < max_row {
            row
        } else {
            max_row
        };
        self.cursor.col = if col < max_col {
            col
        } else {
            max_col
        };
    }

    /// Move the cursor by a signed offset, clamped into bounds.
    pub fn move_cursor_relative(&mut self, delta_row: i16, delta_col: i16)
        requires
            old(self).wf(),
        ensures
            final(self).wf(),
            final(self).model() == spec_move_rel(
                old(self).model(),
                delta_row as int,
                delta_col as int,
            ),
            final(self).saved_cursor == old(self).saved_cursor,
    {
        self.move_rel_wide(delta_row as i32, delta_col as i32);
    }

    /// Move the cursor by a wide signed offset, clamped into bounds; wide
    /// enough that any decoded parameter keeps its exact value.
    pub fn move_rel_wide(&mut self, delta_row: i32, delta_col: i32)
        requires
            old(self).wf(),
            -0x10000 <= delta_row <= 0x10000,
            -0x10000 <= delta_col <= 0x10000,
        ensures
            final(self).wf(),
            final(self).model() == spec_move_rel(
                old(self).model(),
                delta_row as int,
                delta_col as int,
            ),
            final(self).saved_cursor == old(self).saved_cursor,
    {
        let nr: i32 = self.cursor.row as i32 + delta_row;
        let nc: i32 = self.cursor.col as i32 + delta_col;
        let max_row: i32 = self.rows.len() as i32 - 1;
        let max_col: i32 = self.cols as i32 - 1;
        let cr: i32 = if nr < 0 {
            0
        } else if nr > max_row {
            max_row
        } else {
            nr
        };
        let cc: i32 = if nc < 0 {
            0
        } else if nc > max_col {
            max_col
        } else {
            nc
        };
        self.cursor.row = cr as u16;
        self.cursor.col = cc as u16;
    }

    /// Reset every cell to the default and home the cursor.
    pub fn clear_screen(&mut self)
        requires
            old(self).wf(),
        ensures
            final(self).wf(),
            final(self).model() == spec_clear_screen(old(self).model()),
            final(self).saved_cursor == old(self).saved_cursor,
    {
        let ghost m0 = self.model();
        let n = self.rows.len();
        let mut i: usize = 0;
        while i < n
            invariant
                0 <= i <= n,
                n == self.rows@.len(),
                self.cols == old(self).cols,
                self.cursor == old(self).cursor,
                self.saved_cursor == old(self).saved_cursor,
                forall|j: int| 0 <= j < i ==> (#[trigger] self.rows@[j])@ == blank_row(
                    old(self).cols as int,
                ),
                forall|j: int| i <= j < n ==> (#[trigger] self.rows@[j])@ == old(self).rows@[j]@,
            decreases n - i,
        {
            let blank = blank_cells(self.cols);
            self.rows.set(i, blank);
            i = i + 1;
        }
        self.cursor = CursorPosition { row: 0, col: 0 };
        proof {
            assert(self.model().cells =~= spec_clear_screen(m0).cells);
        }
    }

    /// Reset the cursor's line to default cells.
    pub fn clear_line(&mut self)
        requires
            old(self).wf(),
        ensures
            final(self).wf(),
            final(self).model() == spec_clear_line(old(self).model()),
            final(self).saved_cursor == old(self).saved_cursor,
    {
        let r = self.cursor.row as usize;
        let blank = blank_cells(self.cols);
        self.rows.set(r, blank);
        proof {
            assert(self.model().cells =~= spec_clear_line(old(self).model()).cells);
        }
    }

    /// Erase from the cursor to the end of its line, the cursor cell
    /// included.
    pub fn clear_line_from_cursor(&mut self)
        requires
            old(self).wf(),
        ensures
            final(self).wf(),
            final(self).model() == spec_clear_line_from(old(self).model()),
            final(self).saved_cursor == old(self).saved_cursor,
    {
        let ghost m0 = self.model();
        let r = self.cursor.row as usize;
        let c = self.cursor.col as usize;
        proof {
            assert(self.rows@[r as int]@ == m0.cells[r as int]);
            assert(self.rows@[r as int]@.len() == m0.cols);
        }
        let row_ref = &mut self.rows[r];
        blank_cells_from(row_ref, c);
        proof {
            assert(self.model().cells =~= spec_clear_line_from(m0).cells);
        }
    }

    /// Erase from the start of the line through the cursor cell.
    pub fn clear_line_to_cursor(&mut self)
        requires
            old(self).wf(),
        ensures
            final(self).wf(),
            final(self).model() == spec_clear_line_to(old(self).model()),
            final(self).saved_cursor == old(self).saved_cursor,
    {
        let ghost m0 = self.model();
        let r = self.cursor.row as usize;
        let c = self.cursor.col as usize;
        proof {
            assert(self.rows@[r as int]@ == m0.cells[r as int]);
            assert(self.rows@[r as int]@.len() == m0.cols);
        }
        let row_ref = &mut self.rows[r];
        blank_cells_through(row_ref, c);
        proof {
            assert(self.model().cells =~= spec_clear_line_to(m0).cells);
        }
    }

    /// Erase from the cursor to the end of the screen: the rest of the
    /// cursor's line and every row below it.
    pub fn clear_from_cursor(&mut self)
        requires
            old(self).wf(),
        ensures
            final(self).wf(),
            final(self).model() == spec_clear_from_cursor(old(self).model()),
            final(self).saved_cursor == old(self).saved_cursor,
    {
        let ghost m0 = self.model();
        self.clear_line_from_cursor();
        let ghost mid = self.model();
        let n = self.rows.len();
        let r = self.cursor.row as usize;
        let mut i: usize = r + 1;
        while i < n
            invariant
                r + 1 <= i <= n || i == r + 1,
                n == self.rows@.len(),
                r == mid.row,
                m0 == old(self).model(),
                mid == spec_clear_line_from(m0),
                grid_wf(mid),
                self.cols == old(self).cols,
                self.cursor == old(self).cursor,
                self.saved_cursor == old(self).saved_cursor,
                self.rows@.len() == mid.cells.len(),
                forall|j: int| 0 <= j < i && j < n ==> (#[trigger] self.rows@[j])@ == if j <= r {
                    mid.cells[j]
                } else {
                    blank_row(mid.cols)
                },
                forall|j: int| i <= j < n ==> (#[trigger] self.rows@[j])@ == mid.cells[j],
            decreases n - i,
        {
            let ghost prevrows = self.rows@;
            let blank = blank_cells(self.cols);
            self.rows.set(i, blank);
            proof {
                assert forall|j: int|
                    0 <= j < i + 1 && j < n implies (#[trigger] self.rows@[j])@ == (if j <= r {
                    mid.cells[j]
                } else {
                    blank_row(mid.cols)
                }) by {
                    if j == i {
                        assert(self.rows@[j] == blank);
                    } else {
                        assert(self.rows@[j] == prevrows[j]);
                    }
                }
            }
            i = i + 1;
        }
        proof {
            assert(self.model().cells =~= spec_clear_from_cursor(m0).cells);
        }
    }

    /// Erase from the top of the screen through the cursor: every row above
    /// the cursor's line and its start through the cursor cell.
    pub fn clear_to_cursor(&mut self)
        requires
            old(self).wf(),
        ensures
            final(self).wf(),
            final(self).model() == spec_clear_to_cursor(old(self).model()),
            final(self).saved_cursor == old(self).saved_cursor,
    {
        let ghost m0 = self.model();
        self.clear_line_to_cursor();
        let ghost mid = self.model();
        let n = self.rows.len();
        let r = self.cursor.row as usize;
        let mut i: usize = 0;
        while i < r
            invariant
                0 <= i <= r,
                n == self.rows@.len(),
                r == mid.row,
                r < n,
                m0 == old(self).model(),
                mid == spec_clear_line_to(m0),
                grid_wf(mid),
                self.cols == old(self).cols,
                self.cursor == old(self).cursor,
                self.saved_cursor == old(self).saved_cursor,
                self.rows@.len() == mid.cells.len(),
                forall|j: int| 0 <= j < i ==> (#[trigger] self.rows@[j])@ == blank_row(mid.cols),
                forall|j: int| i <= j < n ==> (#[trigger] self.rows@[j])@ == mid.cells[j],
            decreases r - i,
        {
            let ghost prevrows = self.rows@;
            let blank = blank_cells(self.cols);
            self.rows.set(i, blank);
            proof {
                assert forall|j: int|
                    0 <= j < i + 1 implies (#[trigger] self.rows@[j])@ == blank_row(mid.cols) by {
                    if j == i {
                        assert(self.rows@[j] == blank);
                    } else {
                        assert(self.rows@[j] == prevrows[j]);
                    }
                }
                assert forall|j: int|
                    i + 1 <= j < n implies (#[trigger] self.rows@[j])@ == mid.cells[j] by {
                    assert(self.rows@[j] == prevrows[j]);
                }
            }
            i = i + 1;
        }
        proof {
            assert(self.model().cells =~= spec_clear_to_cursor(m0).cells);
        }
    }

    /// Evict the top `lines` rows and append blank rows at the bottom; a
    /// scroll by the whole grid or more clears the screen.
    pub fn scroll_up(&mut self, lines: usize)
        requires
            old(self).wf(),
        ensures
            final(self).wf(),
            final(self).model() == spec_scroll_up(old(self).model(), lines as int),
            final(self).saved_cursor == old(self).saved_cursor,
    {
        let ghost m0 = self.model();
        if lines >= self.rows.len() {
            self.clear_screen();
            return;
        }
        let ghost len = m0.cells.len() as int;
        let mut k: usize = 0;
        while k < lines
            invariant
                0 <= k <= lines,
                lines < len,
                len == m0.cells.len(),
                self.cols == old(self).cols,
                self.cursor == old(self).cursor,
                self.saved_cursor == old(self).saved_cursor,
                m0 == old(self).model(),
                grid_wf(m0),
                self.rows@.len() == len,
                forall|j: int|
                    0 <= j < len ==> (#[trigger] self.rows@[j])@ == if j < len - k {
                        m0.cells[j + k]
                    } else {
                        blank_row(m0.cols)
                    },
            decreases lines - k,
        {
            let ghost before = self.rows@;
            self.rows.remove(0);
            proof {
                assert(self.rows@ =~= before.drop_first());
            }
            let blank = blank_cells(self.cols);
            self.rows.push(blank);
            proof {
                assert forall|j: int| 0 <= j < len implies (#[trigger] self.rows@[j])@ == (if j
                    < len - (k + 1) {
                    m0.cells[j + k + 1]
                } else {
                    blank_row(m0.cols)
                }) by {
                    if j < len - 1 {
                        assert(self.rows@[j] == before[j + 1]);
                    } else {
                        assert(self.rows@[j] == blank);
                    }
                }
            }
            k = k + 1;
        }
        proof {
            assert(self.model().cells =~= spec_scroll_up(m0, lines as int).cells);
        }
    }

    /// Truncate or pad every row to `new_cols`, the row list to `new_rows`,
    /// and clamp the cursor into the new bounds.
    pub fn resize(&mut self, new_cols: usize, new_rows: usize)
        requires
            old(self).wf(),
            1 <= new_cols <= 0xFFFF,
            1 <= new_rows <= 0xFFFF,
        ensures
            final(self).wf(),
            final(self).model() == spec_resize(old(self).model(), new_cols as int, new_rows as int),
            final(self).saved_cursor == old(self).saved_cursor,
    {
        let ghost m0 = self.model();
        let n = self.rows.len();
        let mut i: usize = 0;
        while i < n
            invariant
                0 <= i <= n,
                n == self.rows@.len(),
                n == m0.cells.len(),
                1 <= new_cols <= 0xFFFF,
                self.cols == old(self).cols,
                self.cursor == old(self).cursor,
                self.saved_cursor == old(self).saved_cursor,
                m0 == old(self).model(),
                forall|j: int| 0 <= j < i ==> (#[trigger] self.rows@[j])@ == fit_row(
                    m0.cells[j],
                    new_cols as int,
                ),
                forall|j: int| i <= j < n ==> (#[trigger] self.rows@[j])@ == m0.cells[j],
            decreases n - i,
        {
            let fitted = fit_cells(&self.rows[i], new_cols);
            self.rows.set(i, fitted);
            proof {
                assert(self.rows@[i as int]@ =~= fit_row(m0.cells[i as int], new_cols as int));
            }
            i = i + 1;
        }
        if new_rows > self.rows.len() {
            let mut j = self.rows.len();
            while j < new_rows
                invariant
                    n <= j <= new_rows,
                    n == m0.cells.len(),
                    1 <= new_cols <= 0xFFFF,
                    self.cols == old(self).cols,
                    self.cursor == old(self).cursor,
                    self.saved_cursor == old(self).saved_cursor,
                    m0 == old(self).model(),
                    self.rows@.len() == j,
                    forall|k: int| 0 <= k < n ==> (#[trigger] self.rows@[k])@ == fit_row(
                        m0.cells[k],
                        new_cols as int,
                    ),
                    forall|k: int| n <= k < j ==> (#[trigger] self.rows@[k])@ == blank_row(
                        new_cols as int,
                    ),
                decreases new_rows - j,
            {
                let blank = blank_cells(new_cols);
                self.rows.push(blank);
                j = j + 1;
            }
        } else {
            self.rows.truncate(new_rows);
        }
        self.cols = new_cols;
        let max_row = (new_rows - 1) as u16;
        let max_col = (new_cols - 1) as u16;
        if self.cursor.row >= max_row {
            self.cursor.row = max_row;
        }
        if self.cursor.col >= max_col {
            self.cursor.col = max_col;
        }
        proof {
            assert(self.model().cells =~= spec_resize(
                m0,
                new_cols as int,
                new_rows as int,
            ).cells);
        }
    }
}

impl TerminalGrid {
    /// A faithful copy of the whole grid, cursor included.
    pub fn duplicate(&self) -> (g: TerminalGrid)
        ensures
            g.model() == self.model(),
            g.cols == self.cols,
            g.cursor == self.cursor,
            g.saved_cursor == self.saved_cursor,
    {
        let n = self.rows.len();
        let mut rows: Vec<Vec<TerminalChar>> = Vec::new();
        let mut i: usize = 0;
        while i < n
            invariant
                0 <= i <= n,
                n == self.rows@.len(),
                rows@.len() == i,
                forall|j: int| 0 <= j < i ==> (#[trigger] rows@[j])@ == self.rows@[j]@,
            decreases n - i,
        {
            let src = &self.rows[i];
            let m = src.len();
            let mut row: Vec<TerminalChar> = Vec::new();
            let mut k: usize = 0;
            while k < m
                invariant
                    0 <= k <= m,
                    m == src@.len(),
                    row@ =~= src@.take(k as int),
                decreases m - k,
            {
                row.push(src[k]);
                proof {
                    assert(row@ =~= src@.take(k + 1));
                }
                k = k + 1;
            }
            proof {
                assert(row@ =~= src@);
            }
            rows.push(row);
            i = i + 1;
        }
        let g = TerminalGrid {
            rows,
            cols: self.cols,
            cursor: self.cursor,
            saved_cursor: self.saved_cursor,
        };
        proof {
            assert(g.model().cells =~= self.model().cells);
        }
        g
    }
}

/// A copy of one row truncated or padded with default cells to `cols`.
fn fit_cells(row: &Vec<TerminalChar>, cols: usize) -> (r: Vec<TerminalChar>)
    ensures
        r@ == fit_row(row@, cols as int),
{
    let n = row.len();
    let mut out: Vec<TerminalChar> = Vec::new();
    let mut i: usize = 0;
    while i < cols
        invariant
            0 <= i <= cols,
            n == row@.len(),
            out@.len() == i,
            forall|j: int| 0 <= j < i && j < n ==> out@[j] == row@[j],
            forall|j: int| n <= j < i ==> out@[j] == default_cell(),
        decreases cols - i,
    {
        if i < n {
            out.push(row[i]);
        } else {
            out.push(TerminalChar::blank());
        }
        i = i + 1;
    }
    proof {
        assert(out@ =~= fit_row(row@, cols as int));
    }
    out
}

/// Reset every cell from `from` on to the default.
fn blank_cells_from(row: &mut Vec<TerminalChar>, from: usize)
    ensures
        final(row)@ == blank_tail(old(row)@, from as int),
{
    let n = row.len();
    let mut j: usize = from;
    while j < n
        invariant
            from <= j <= n || j == from,
            n == row@.len(),
            forall|k: int| 0 <= k < j && k < n ==> (#[trigger] row@[k]) == if k >= from {
                default_cell()
            } else {
                old(row)@[k]
            },
            forall|k: int| j <= k < n ==> (#[trigger] row@[k]) == old(row)@[k],
        decreases n - j,
    {
        row.set(j, TerminalChar::blank());
        j = j + 1;
    }
    proof {
        assert(row@ =~= blank_tail(old(row)@, from as int));
    }
}

/// Reset every cell up to and including `through` to the default.
fn blank_cells_through(row: &mut Vec<TerminalChar>, through: usize)
    requires
        through < old(row)@.len(),
    ensures
        final(row)@ == blank_head(old(row)@, through as int),
{
    let n = row.len();
    let mut j: usize = 0;
    while j <= through
        invariant
            0 <= j <= through + 1,
            through < n,
            n == row@.len(),
            row@.len() == old(row)@.len(),
            forall|k: int| 0 <= k < j ==> (#[trigger] row@[k]) == default_cell(),
            forall|k: int| j <= k < row@.len() ==> (#[trigger] row@[k]) == old(row)@[k],
        decreases through + 1 - j,
    {
        row.set(j, TerminalChar::blank());
        j = j + 1;
    }
    proof {
        assert(row@ =~= blank_head(old(row)@, through as int));
    }
}

/// A vector of `cols` default cells.
fn blank_cells(cols: usize) -> (r: Vec<TerminalChar>)
    ensures
        r@ == blank_row(cols as int),
{
    let mut v: Vec<TerminalChar> = Vec::new();
    let mut i: usize = 0;
    while i < cols
        invariant
            0 <= i <= cols,
            v@.len() == i,
            forall|j: int| 0 <= j < i ==> v@[j] == default_cell(),
        decreases cols - i,
    {
        v.push(TerminalChar::blank());
        i = i + 1;
    }
    proof {
        assert(v@ =~= blank_row(cols as int));
    }
    v
}

} // verus!
