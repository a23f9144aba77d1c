//! Painting text, lines and boxes on grids of cells.

use vstd::prelude::*;
use vstd::string::*;
use crate::cell::{Cell, Style};
use crate::cellbuffer::CellBuffer;
use crate::ui::accessor::CellAccessor;
use crate::ui::attributes::{HorizontalAlign, Orientation, VerticalAlign};
use crate::text::chars_of;

verus! {

/// The top left corner of a box.
pub const BOX_TOP_LEFT: char = '\u{250C}';

/// The top right corner of a box.
pub const BOX_TOP_RIGHT: char = '\u{2510}';

/// The bottom right corner of a box.
pub const BOX_BOTTOM_RIGHT: char = '\u{2518}';

/// The bottom left corner of a box.
pub const BOX_BOTTOM_LEFT: char = '\u{2514}';

/// The horizontal edge of a box.
pub const BOX_HORIZONTAL: char = '\u{2500}';

/// The vertical edge of a box.
pub const BOX_VERTICAL: char = '\u{2502}';

/// What a cell holds after `line` was printed from column `x` of row `y`
/// on: a character of the line with the styles of `cell`, or what it held
/// where the line does not reach.
pub open spec fn printed_at(
    line: Seq<char>,
    x: int,
    y: int,
    cell: Cell,
    before: CellBuffer,
    tx: int,
    ty: int,
) -> Cell {
    if ty == y && x <= tx < x + line.len() {
        Cell { ch: line[tx - x], fg: cell.fg, bg: cell.bg }
    } else {
        before.at(tx, ty)
    }
}

/// What a cell holds after `count` copies of `cell` were put in a line
/// from `(x, y)` on, to the right or downwards.
pub open spec fn repeated_at(
    x: int,
    y: int,
    orientation: Orientation,
    count: int,
    cell: Cell,
    before: CellBuffer,
    tx: int,
    ty: int,
) -> Cell {
    let covered = match orientation {
        Orientation::Horizontal => ty == y && x <= tx < x + count,
        Orientation::Vertical => tx == x && y <= ty < y + count,
    };
    if covered {
        cell
    } else {
        before.at(tx, ty)
    }
}

/// What a cell holds after a box was drawn along the border of a grid of
/// the size `(cols, rows)`: the corners get their characters and keep
/// their styles; the cells of the edges between them become an edge
/// character with default styles; the inside is left.
pub open spec fn boxed_at(before: CellBuffer, cols: int, rows: int, tx: int, ty: int) -> Cell {
    if tx == 0 && ty == 0 {
        Cell { ch: BOX_TOP_LEFT, ..before.at(tx, ty) }
    } else if tx == cols - 1 && ty == 0 {
        Cell { ch: BOX_TOP_RIGHT, ..before.at(tx, ty) }
    } else if tx == cols - 1 && ty == rows - 1 {
        Cell { ch: BOX_BOTTOM_RIGHT, ..before.at(tx, ty) }
    } else if tx == 0 && ty == rows - 1 {
        Cell { ch: BOX_BOTTOM_LEFT, ..before.at(tx, ty) }
    } else if ty == 0 || ty == rows - 1 {
        Cell { ch: BOX_HORIZONTAL, fg: Style::spec_default(), bg: Style::spec_default() }
    } else if tx == 0 || tx == cols - 1 {
        Cell { ch: BOX_VERTICAL, fg: Style::spec_default(), bg: Style::spec_default() }
    } else {
        before.at(tx, ty)
    }
}

/// The column at which a line of `len` characters begins when it is
/// aligned in `cols` columns with `margin` columns kept free at the
/// border.
pub open spec fn halign_column(cols: int, len: int, halign: HorizontalAlign, margin: int) -> int {
    match halign {
        HorizontalAlign::Left => margin,
        HorizontalAlign::Right => cols - len - margin - 1,
        HorizontalAlign::Middle => (cols - len) / 2,
    }
}

/// The row in which a line stands when it is aligned in `rows` rows with
/// `margin` rows kept free at the border.
pub open spec fn valign_row(rows: int, valign: VerticalAlign, margin: int) -> int {
    match valign {
        VerticalAlign::Top => margin,
        VerticalAlign::Bottom => rows - margin - 1,
        VerticalAlign::Middle => rows / 2,
    }
}

/// Painting on what gives access to its cells.
pub trait Painter: CellAccessor {
    /// Prints `line` from column `x` of row `y` on, one character to a
    /// cell, with the styles of `cell`. What does not fit into the row is
    /// left out.
    fn printline_with_cell(&mut self, x: usize, y: usize, line: &str, cell: Cell)
        ensures
            final(self).grid().wf(),
            final(self).grid().spec_cols() == old(self).grid().spec_cols(),
            final(self).grid().spec_rows() == old(self).grid().spec_rows(),
            forall|tx: int, ty: int|
                old(self).grid().in_bounds(tx, ty) ==> #[trigger] final(self).grid().at(tx, ty)
                    == printed_at(line@, x as int, y as int, cell, old(self).grid(), tx, ty),
    {
        let (cols, _) = self.dims();
        let chars = chars_of(line);
        if x >= cols {
            return ;
        }
        let n = if chars.len() < cols - x {
            chars.len()
        } else {
            cols - x
        };
        let mut index: usize = 0;
        while index < n
            invariant
                chars@ == line@,
                x < cols,
                n <= chars@.len(),
                n <= cols - x,
                n == chars@.len() || n == cols - x,
                index <= n,
                self.grid().wf(),
                cols == self.grid().spec_cols(),
                self.grid().spec_cols() == old(self).grid().spec_cols(),
                self.grid().spec_rows() == old(self).grid().spec_rows(),
                forall|tx: int, ty: int|
                    old(self).grid().in_bounds(tx, ty) ==> #[trigger] self.grid().at(tx, ty)
                        == if tx < x + index {
                        printed_at(line@, x as int, y as int, cell, old(self).grid(), tx, ty)
                    } else {
                        old(self).grid().at(tx, ty)
                    },
            decreases n - index,
        {
            let ghost before = self.grid();
            let c = Cell::new(chars[index], cell.fg(), cell.bg());
            self.set_cell(x + index, y, c);
            assert forall|tx: int, ty: int| old(self).grid().in_bounds(tx, ty) implies #[trigger] self.grid().at(
                tx,
                ty,
            ) == if tx < x + index + 1 {
                printed_at(line@, x as int, y as int, cell, old(self).grid(), tx, ty)
            } else {
                old(self).grid().at(tx, ty)
            } by {
                assert(before.in_bounds(tx, ty));
                assert(self.grid().at(tx, ty) == if tx == x + index && ty == y {
                    c
                } else {
                    before.at(tx, ty)
                });
            }
            index += 1;
        }
    }

    /// Prints `line` from column `x` of row `y` on with default styles.
    fn printline(&mut self, x: usize, y: usize, line: &str)
        ensures
            final(self).grid().wf(),
            final(self).grid().spec_cols() == old(self).grid().spec_cols(),
            final(self).grid().spec_rows() == old(self).grid().spec_rows(),
            forall|tx: int, ty: int|
                old(self).grid().in_bounds(tx, ty) ==> #[trigger] final(self).grid().at(tx, ty)
                    == printed_at(
                    line@,
                    x as int,
                    y as int,
                    Cell::spec_default(),
                    old(self).grid(),
                    tx,
                    ty,
                ),
    {
        self.printline_with_cell(x, y, line, Cell::default());
    }

    /// The column at which `line` begins when it is aligned as `halign`
    /// says, with `margin` columns kept free at the border.
    fn halign_line(&self, line: &str, halign: HorizontalAlign, margin: usize) -> (x: usize)
        requires
            0 <= halign_column(
                self.grid().spec_cols() as int,
                line@.len() as int,
                halign,
                margin as int,
            ),
        ensures
            x == halign_column(
                self.grid().spec_cols() as int,
                line@.len() as int,
                halign,
                margin as int,
            ),
    {
        let (cols, _) = self.dims();
        let len = line.unicode_len();
        match halign {
            HorizontalAlign::Left => margin,
            HorizontalAlign::Right => cols - len - margin - 1,
            HorizontalAlign::Middle => (cols - len) / 2,
        }
    }

    /// The row in which a line stands when it is aligned as `valign` says,
    /// with `margin` rows kept free at the border. What the line holds
    /// makes no difference.
    fn valign_line(&self, line: &str, valign: VerticalAlign, margin: usize) -> (y: usize)
        requires
            0 <= valign_row(self.grid().spec_rows() as int, valign, margin as int),
        ensures
            y == valign_row(self.grid().spec_rows() as int, valign, margin as int),
    {
        let (_, rows) = self.dims();
        match valign {
            VerticalAlign::Top => margin,
            VerticalAlign::Bottom => rows - margin - 1,
            VerticalAlign::Middle => rows / 2,
        }
    }

    /// Puts `count` copies of `cell` in a line from `(x, y)` on, to the
    /// right or downwards. What does not fit is left out.
    fn repeat_cell(&mut self, x: usize, y: usize, orientation: Orientation, count: usize, cell: Cell)
        ensures
            final(self).grid().wf(),
            final(self).grid().spec_cols() == old(self).grid().spec_cols(),
            final(self).grid().spec_rows() == old(self).grid().spec_rows(),
            forall|tx: int, ty: int|
                old(self).grid().in_bounds(tx, ty) ==> #[trigger] final(self).grid().at(tx, ty)
                    == repeated_at(
                    x as int,
                    y as int,
                    orientation,
                    count as int,
                    cell,
                    old(self).grid(),
                    tx,
                    ty,
                ),
    {
        let (cols, rows) = self.dims();
        if x >= cols || y >= rows {
            return ;
        }
        let room = match orientation {
            Orientation::Horizontal => cols - x,
            Orientation::Vertical => rows - y,
        };
        let n = if count < room {
            count
        } else {
            room
        };
        let mut i: usize = 0;
        while i < n
            invariant
                x < cols,
                y < rows,
                room == match orientation {
                    Orientation::Horizontal => cols - x,
                    Orientation::Vertical => rows - y,
                },
                n <= count,
                n <= room,
                n == count || n == room,
                i <= n,
                self.grid().wf(),
                cols == self.grid().spec_cols(),
                rows == self.grid().spec_rows(),
                self.grid().spec_cols() == old(self).grid().spec_cols(),
                self.grid().spec_rows() == old(self).grid().spec_rows(),
                forall|tx: int, ty: int|
                    old(self).grid().in_bounds(tx, ty) ==> #[trigger] self.grid().at(tx, ty)
                        == repeated_at(
                        x as int,
                        y as int,
                        orientation,
                        i as int,
                        cell,
                        old(self).grid(),
                        tx,
                        ty,
                    ),
            decreases n - i,
        {
            let ghost before = self.grid();
            let (ix, iy) = match orientation {
                Orientation::Horizontal => (x + i, y),
                Orientation::Vertical => (x, y + i),
            };
            self.set_cell(ix, iy, cell);
            assert forall|tx: int, ty: int| old(self).grid().in_bounds(tx, ty) implies #[trigger] self.grid().at(
                tx,
                ty,
            ) == repeated_at(
                x as int,
                y as int,
                orientation,
                i + 1,
                cell,
                old(self).grid(),
                tx,
                ty,
            ) by {
                assert(before.in_bounds(tx, ty));
                assert(self.grid().at(tx, ty) == if tx == ix && ty == iy {
                    cell
                } else {
                    before.at(tx, ty)
                });
            }
            i += 1;
        }
    }

    /// Draws a box along the border of the grid, which is at least two
    /// cells wide and two cells high.
    fn draw_box(&mut self)
        requires
            old(self).grid().spec_cols() >= 2,
            old(self).grid().spec_rows() >= 2,
        ensures
            final(self).grid().wf(),
            final(self).grid().spec_cols() == old(self).grid().spec_cols(),
            final(self).grid().spec_rows() == old(self).grid().spec_rows(),
            forall|tx: int, ty: int|
                old(self).grid().in_bounds(tx, ty) ==> #[trigger] final(self).grid().at(tx, ty)
                    == boxed_at(
                    old(self).grid(),
                    old(self).grid().spec_cols() as int,
                    old(self).grid().spec_rows() as int,
                    tx,
                    ty,
                ),
    {
        let (cols, rows) = self.dims();
        self.put_char(0, 0, BOX_TOP_LEFT);
        self.put_char(cols - 1, 0, BOX_TOP_RIGHT);
        self.put_char(cols - 1, rows - 1, BOX_BOTTOM_RIGHT);
        self.put_char(0, rows - 1, BOX_BOTTOM_LEFT);
        let horizontal = Cell::with_char(BOX_HORIZONTAL);
        let vertical = Cell::with_char(BOX_VERTICAL);
        self.repeat_cell(1, 0, Orientation::Horizontal, cols - 2, horizontal);
        self.repeat_cell(1, rows - 1, Orientation::Horizontal, cols - 2, horizontal);
        self.repeat_cell(0, 1, Orientation::Vertical, rows - 2, vertical);
        self.repeat_cell(cols - 1, 1, Orientation::Vertical, rows - 2, vertical);
    }

    /// Puts the character `ch` into the cell at `(x, y)` and leaves its
    /// styles. Where there is no such cell, nothing happens.
    fn put_char(&mut self, x: usize, y: usize, ch: char)
        ensures
            final(self).grid().wf(),
            final(self).grid().spec_cols() == old(self).grid().spec_cols(),
            final(self).grid().spec_rows() == old(self).grid().spec_rows(),
            forall|tx: int, ty: int|
                old(self).grid().in_bounds(tx, ty) ==> #[trigger] final(self).grid().at(tx, ty)
                    == if tx == x && ty == y {
                    Cell { ch, ..old(self).grid().at(tx, ty) }
                } else {
                    old(self).grid().at(tx, ty)
                },
    {
        let found = match self.get(x, y) {
            Some(c) => Some(*c),
            None => None,
        };
        match found {
            Some(c) => {
                self.set_cell(x, y, Cell::new(ch, c.fg(), c.bg()));
            },
            None => {},
        }
    }
}

impl<T: CellAccessor + ?Sized> Painter for T {

}

} // verus!
