//! The cell buffer: a rectangular grid of cells, addressed by column and row.

use vstd::prelude::*;
use crate::cell::Cell;

verus! {

/// Where the cell at column `x` and row `y` lies in a row-major grid that is
/// `cols` wide.
pub open spec fn offset_of(cols: int, x: int, y: int) -> int {
    y * cols + x
}

/// Inside a grid, a cell that comes earlier in row-major order has the
/// smaller offset, and every offset lies below `cols * rows`.
pub proof fn lemma_offset_order(cols: int, rows: int, x1: int, y1: int, x2: int, y2: int)
    requires
        0 <= x1 < cols,
        0 <= x2 <= cols,
        0 <= y1,
        0 <= y2 <= rows,
        y1 < y2 || (y1 == y2 && x1 < x2),
        y2 == rows ==> x2 == 0,
    ensures
        0 <= offset_of(cols, x1, y1) < offset_of(cols, x2, y2) <= cols * rows,
{
    assert(0 <= y1 * cols) by (nonlinear_arith)
        requires
            0 <= y1,
            0 < cols,
    ;
    assert(y1 < y2 ==> y1 * cols + cols <= y2 * cols) by (nonlinear_arith)
        requires
            0 < cols,
    ;
    assert(y2 < rows ==> y2 * cols + cols <= cols * rows) by (nonlinear_arith)
        requires
            0 < cols,
    ;
    assert(y2 == rows ==> y2 * cols == cols * rows) by (nonlinear_arith);
}

/// Two cells of a grid with the same offset are the same cell.
pub proof fn lemma_offset_injective(cols: int, x1: int, y1: int, x2: int, y2: int)
    requires
        0 <= x1 < cols,
        0 <= x2 < cols,
        0 <= y1,
        0 <= y2,
        offset_of(cols, x1, y1) == offset_of(cols, x2, y2),
    ensures
        x1 == x2,
        y1 == y2,
{
    if y1 < y2 {
        lemma_offset_order(cols, y2 + 1, x1, y1, x2, y2);
    } else if y2 < y1 {
        lemma_offset_order(cols, y1 + 1, x2, y2, x1, y1);
    }
}

/// Every index below `cols * rows` is the offset of exactly the cell in
/// column `i % cols` and row `i / cols`.
pub proof fn lemma_offset_cover(cols: int, rows: int, i: int)
    requires
        0 <= i < cols * rows,
        0 <= cols,
        0 <= rows,
    ensures
        0 < cols,
        0 <= i % cols < cols,
        0 <= i / cols < rows,
        offset_of(cols, i % cols, i / cols) == i,
{
    assert(cols != 0) by (nonlinear_arith)
        requires
            0 <= i < cols * rows,
    ;
    vstd::arithmetic::div_mod::lemma_fundamental_div_mod(i, cols);
    vstd::arithmetic::div_mod::lemma_mod_bound(i, cols);
    let q = i / cols;
    assert(i == cols * q + i % cols);
    assert(0 <= q < rows) by (nonlinear_arith)
        requires
            i == cols * q + i % cols,
            0 <= i % cols < cols,
            0 <= i < cols * rows,
            0 < cols,
    ;
    assert(cols * q == q * cols) by (nonlinear_arith);
}

/// The cells of a grid that was given a new size, in row-major order: a
/// cell that both sizes have holds what it held, a cell that only the new
/// size has holds `blank`.
pub open spec fn resized_cells(
    cells: Seq<Cell>,
    cols: int,
    rows: int,
    newcols: int,
    newrows: int,
    blank: Cell,
) -> Seq<Cell> {
    Seq::new(
        (newcols * newrows) as nat,
        |i: int|
            if i % newcols < cols && i / newcols < rows {
                cells[offset_of(cols, i % newcols, i / newcols)]
            } else {
                blank
            },
    )
}

/// Giving a grid the size it has changes none of its cells.
pub proof fn lemma_resize_same(cells: Seq<Cell>, cols: int, rows: int, blank: Cell)
    requires
        0 <= cols,
        0 <= rows,
        cells.len() == cols * rows,
    ensures
        resized_cells(cells, cols, rows, cols, rows, blank) == cells,
{
    let r = resized_cells(cells, cols, rows, cols, rows, blank);
    assert forall|i: int| 0 <= i < cells.len() implies cells[i] == r[i] by {
        lemma_offset_cover(cols, rows, i);
    }
    assert(cells =~= r);
}

/// A grid that was made smaller and then given its first size again holds,
/// in the part that the smaller size has, what it held at first, and
/// `blank` everywhere else.
pub proof fn lemma_resize_round_trip(
    cells: Seq<Cell>,
    cols: int,
    rows: int,
    smallcols: int,
    smallrows: int,
    blank: Cell,
    x: int,
    y: int,
)
    requires
        0 <= smallcols <= cols,
        0 <= smallrows <= rows,
        cells.len() == cols * rows,
        0 <= x < cols,
        0 <= y < rows,
    ensures
        resized_cells(
            resized_cells(cells, cols, rows, smallcols, smallrows, blank),
            smallcols,
            smallrows,
            cols,
            rows,
            blank,
        )[offset_of(cols, x, y)] == if x < smallcols && y < smallrows {
            cells[offset_of(cols, x, y)]
        } else {
            blank
        },
{
    let small = resized_cells(cells, cols, rows, smallcols, smallrows, blank);
    let i = offset_of(cols, x, y);
    lemma_offset_order(cols, rows, x, y, 0, rows);
    lemma_offset_cover(cols, rows, i);
    lemma_offset_injective(cols, x, y, i % cols, i / cols);
    if x < smallcols && y < smallrows {
        let j = offset_of(smallcols, x, y);
        lemma_offset_order(smallcols, smallrows, x, y, 0, smallrows);
        lemma_offset_cover(smallcols, smallrows, j);
        lemma_offset_injective(smallcols, x, y, j % smallcols, j / smallcols);
    }
}

/// In a grid of which every cell is `blank`, the cell at any of its
/// coordinates is `blank`, and there is no cell elsewhere.
pub proof fn lemma_new_get(b: CellBuffer, blank: Cell, x: int, y: int)
    requires
        b.wf(),
        b@ == Seq::new((b.spec_cols() * b.spec_rows()) as nat, |i: int| blank),
        0 <= x,
        0 <= y,
    ensures
        b.spec_get(x, y) == if x < b.spec_cols() && y < b.spec_rows() {
            Some(blank)
        } else {
            None::<Cell>
        },
{
    if x < b.spec_cols() && y < b.spec_rows() {
        lemma_offset_order(b.spec_cols() as int, b.spec_rows() as int, x, y, 0, b.spec_rows() as int);
    }
}

/// A rectangular grid of cells that stands for a terminal display.
///
/// The grid is `cols` wide and `rows` high and always holds exactly
/// `cols * rows` cells, in row-major order.
#[derive(Debug, PartialEq, Eq)]
pub struct CellBuffer {
    cols: usize,
    rows: usize,
    cells: Vec<Cell>,
}

impl View for CellBuffer {
    type V = Seq<Cell>;

    /// The cells in row-major order.
    closed spec fn view(&self) -> Seq<Cell> {
        self.cells@
    }
}

impl CellBuffer {
    /// The width of the grid.
    pub closed spec fn spec_cols(&self) -> nat {
        self.cols as nat
    }

    /// The height of the grid.
    pub closed spec fn spec_rows(&self) -> nat {
        self.rows as nat
    }

    /// The grid holds one cell for each of its coordinates, and their number
    /// fits the machine.
    #[verifier::type_invariant]
    pub open spec fn wf(self) -> bool {
        &&& self@.len() == self.spec_cols() * self.spec_rows()
        &&& self@.len() <= usize::MAX
        &&& self.spec_cols() <= usize::MAX
        &&& self.spec_rows() <= usize::MAX
    }

    /// Whether `(x, y)` names a cell of the grid.
    pub open spec fn in_bounds(&self, x: int, y: int) -> bool {
        0 <= x < self.spec_cols() && 0 <= y < self.spec_rows()
    }

    /// The cell in column `x` and row `y`.
    pub open spec fn at(&self, x: int, y: int) -> Cell
        recommends
            self.in_bounds(x, y),
    {
        self@[offset_of(self.spec_cols() as int, x, y)]
    }

    /// The cell in column `x` and row `y`, if the grid has one there.
    pub open spec fn spec_get(&self, x: int, y: int) -> Option<Cell> {
        if self.in_bounds(x, y) {
            Some(self.at(x, y))
        } else {
            None
        }
    }

    /// Whether every cell of the grid equals `cell`.
    pub open spec fn is_filled_with(&self, cell: Cell) -> bool {
        forall|i: int| 0 <= i < self@.len() ==> self@[i] == cell
    }

    /// What a cell of a resized grid holds: the old cell where the old grid
    /// had one at these coordinates, `blank` elsewhere.
    pub open spec fn resized_at(&self, x: int, y: int, blank: Cell) -> Cell {
        if self.in_bounds(x, y) {
            self.at(x, y)
        } else {
            blank
        }
    }

    /// A grid of the given size in which every cell is `cell`.
    pub fn new(cols: usize, rows: usize, cell: Cell) -> (b: CellBuffer)
        requires
            cols * rows <= usize::MAX,
        ensures
            b.wf(),
            b.spec_cols() == cols,
            b.spec_rows() == rows,
            b@ == Seq::new((cols * rows) as nat, |i: int| cell),
            b.is_filled_with(cell),
    {
        let len = cols * rows;
        let mut cells: Vec<Cell> = Vec::with_capacity(len);
        let mut i: usize = 0;
        while i < len
            invariant
                i <= len,
                cells@.len() == i,
                forall|k: int| 0 <= k < i ==> cells@[k] == cell,
            decreases len - i,
        {
            cells.push(cell);
            i += 1;
        }
        assert(cells@ =~= Seq::new((cols * rows) as nat, |i: int| cell));
        CellBuffer { cols, rows, cells }
    }

    /// The width of the grid in columns.
    pub fn cols(&self) -> (c: usize)
        ensures
            c == self.spec_cols(),
            self.wf(),
        no_unwind
    {
        proof {
            use_type_invariant(self);
        }
        self.cols
    }

    /// The height of the grid in rows.
    pub fn rows(&self) -> (r: usize)
        ensures
            r == self.spec_rows(),
            self.wf(),
        no_unwind
    {
        proof {
            use_type_invariant(self);
        }
        self.rows
    }

    /// The size of the grid as `(cols, rows)`.
    pub fn size(&self) -> (s: (usize, usize))
        ensures
            s.0 == self.spec_cols(),
            s.1 == self.spec_rows(),
            self.wf(),
        no_unwind
    {
        proof {
            use_type_invariant(self);
        }
        (self.cols, self.rows)
    }

    /// The cells in row-major order.
    pub fn cells(&self) -> (v: &Vec<Cell>)
        ensures
            v@ == self@,
            self.wf(),
    {
        proof {
            use_type_invariant(self);
        }
        &self.cells
    }

    /// The cell in column `x` and row `y`, or `None` where the grid has no
    /// such cell.
    pub fn get(&self, x: usize, y: usize) -> (r: Option<&Cell>)
        ensures
            self.wf(),
            match r {
                Some(c) => self.in_bounds(x as int, y as int) && *c == self.at(x as int, y as int),
                None => !self.in_bounds(x as int, y as int),
            },
        no_unwind
    {
        proof {
            use_type_invariant(self);
        }
        if x < self.cols && y < self.rows {
            proof {
                lemma_offset_order(
                    self.cols as int,
                    self.rows as int,
                    x as int,
                    y as int,
                    0,
                    self.rows as int,
                );
            }
            let i = y * self.cols + x;
            Some(&self.cells[i])
        } else {
            None
        }
    }

    /// A mutable reference to the cell in column `x` and row `y`, or `None`
    /// where the grid has no such cell. Writing through the reference
    /// changes that cell and no other.
    pub fn get_mut(&mut self, x: usize, y: usize) -> (r: Option<&mut Cell>)
        ensures
            old(self).wf(),
            final(self).wf(),
            final(self).spec_cols() == old(self).spec_cols(),
            final(self).spec_rows() == old(self).spec_rows(),
            match r {
                Some(c) => {
                    &&& old(self).in_bounds(x as int, y as int)
                    &&& *c == old(self).at(x as int, y as int)
                    &&& final(self)@ == old(self)@.update(
                        offset_of(old(self).spec_cols() as int, x as int, y as int),
                        *final(c),
                    )
                },
                None => !old(self).in_bounds(x as int, y as int) && final(self)@ == old(self)@,
            },
        no_unwind
    {
        proof {
            use_type_invariant(&*self);
        }
        if x < self.cols && y < self.rows {
            proof {
                lemma_offset_order(
                    self.cols as int,
                    self.rows as int,
                    x as int,
                    y as int,
                    0,
                    self.rows as int,
                );
            }
            let i = y * self.cols + x;
            Some(&mut self.cells[i])
        } else {
            None
        }
    }

    /// The cell in column `x` and row `y` of a grid that has one there.
    pub fn index(&self, x: usize, y: usize) -> (c: &Cell)
        requires
            self.in_bounds(x as int, y as int),
        ensures
            *c == self.at(x as int, y as int),
        no_unwind
    {
        proof {
            use_type_invariant(self);
            lemma_offset_order(
                self.cols as int,
                self.rows as int,
                x as int,
                y as int,
                0,
                self.rows as int,
            );
        }
        let i = y * self.cols + x;
        &self.cells[i]
    }

    /// A mutable reference to the cell in column `x` and row `y` of a grid
    /// that has one there.
    pub fn index_mut(&mut self, x: usize, y: usize) -> (c: &mut Cell)
        requires
            old(self).in_bounds(x as int, y as int),
        ensures
            final(self).wf(),
            final(self).spec_cols() == old(self).spec_cols(),
            final(self).spec_rows() == old(self).spec_rows(),
            *c == old(self).at(x as int, y as int),
            final(self)@ == old(self)@.update(
                offset_of(old(self).spec_cols() as int, x as int, y as int),
                *final(c),
            ),
        no_unwind
    {
        proof {
            use_type_invariant(&*self);
            lemma_offset_order(
                self.cols as int,
                self.rows as int,
                x as int,
                y as int,
                0,
                self.rows as int,
            );
        }
        let i = y * self.cols + x;
        &mut self.cells[i]
    }

    /// Puts `cell` into column `x` and row `y`. Where the grid has no such
    /// cell, nothing happens.
    pub fn set_cell(&mut self, x: usize, y: usize, cell: Cell)
        ensures
            final(self).wf(),
            final(self).spec_cols() == old(self).spec_cols(),
            final(self).spec_rows() == old(self).spec_rows(),
            forall|tx: int, ty: int|
                old(self).in_bounds(tx, ty) ==> #[trigger] final(self).at(tx, ty) == if tx == x
                    && ty == y {
                    cell
                } else {
                    old(self).at(tx, ty)
                },
            final(self)@ == if old(self).in_bounds(x as int, y as int) {
                old(self)@.update(offset_of(old(self).spec_cols() as int, x as int, y as int), cell)
            } else {
                old(self)@
            },
        no_unwind
    {
        proof {
            use_type_invariant(&*self);
        }
        if x < self.cols && y < self.rows {
            proof {
                lemma_offset_order(
                    self.cols as int,
                    self.rows as int,
                    x as int,
                    y as int,
                    0,
                    self.rows as int,
                );
            }
            let i = y * self.cols + x;
            self.cells[i] = cell;
            assert forall|tx: int, ty: int| old(self).in_bounds(tx, ty) implies #[trigger] self.at(
                tx,
                ty,
            ) == if tx == x && ty == y {
                cell
            } else {
                old(self).at(tx, ty)
            } by {
                lemma_offset_order(
                    self.cols as int,
                    self.rows as int,
                    tx,
                    ty,
                    0,
                    self.rows as int,
                );
                if !(tx == x && ty == y) {
                    if offset_of(self.cols as int, tx, ty) == offset_of(
                        self.cols as int,
                        x as int,
                        y as int,
                    ) {
                        lemma_offset_injective(self.cols as int, tx, ty, x as int, y as int);
                    }
                }
            }
        }
    }

    /// Puts the character `ch` into the cell in column `x` and row `y` and
    /// leaves its styles. Where the grid has no such cell, nothing
    /// happens.
    pub fn set_ch(&mut self, x: usize, y: usize, ch: char)
        ensures
            final(self).wf(),
            final(self).spec_cols() == old(self).spec_cols(),
            final(self).spec_rows() == old(self).spec_rows(),
            forall|tx: int, ty: int|
                old(self).in_bounds(tx, ty) ==> #[trigger] final(self).at(tx, ty) == if tx == x
                    && ty == y {
                    Cell { ch, ..old(self).at(tx, ty) }
                } else {
                    old(self).at(tx, ty)
                },
        no_unwind
    {
        proof {
            use_type_invariant(&*self);
        }
        if x < self.cols && y < self.rows {
            let cell = *self.index(x, y);
            self.set_cell(x, y, Cell { ch, fg: cell.fg, bg: cell.bg });
        }
    }

    /// Overwrites every cell with `blank`; the size stays.
    pub fn clear(&mut self, blank: Cell)
        ensures
            final(self).wf(),
            final(self).spec_cols() == old(self).spec_cols(),
            final(self).spec_rows() == old(self).spec_rows(),
            final(self)@ == Seq::new(old(self)@.len(), |i: int| blank),
            final(self).is_filled_with(blank),
        no_unwind
    {
        proof {
            use_type_invariant(&*self);
        }
        let len = self.cells.len();
        let mut i: usize = 0;
        while i < len
            invariant
                i <= len,
                len == self.cells@.len(),
                self.cols == old(self).cols,
                self.rows == old(self).rows,
                len == self.cols * self.rows,
                forall|k: int| 0 <= k < i ==> self.cells@[k] == blank,
            decreases len - i,
        {
            self.cells[i] = blank;
            i += 1;
        }
        assert(self.cells@ =~= Seq::new(old(self)@.len(), |i: int| blank));
    }

    /// Makes every cell hold what the cell of `other` at the same place
    /// holds. Both grids have one size.
    pub fn copy_from(&mut self, other: &CellBuffer)
        requires
            old(self).spec_cols() == other.spec_cols(),
            old(self).spec_rows() == other.spec_rows(),
        ensures
            final(self).wf(),
            final(self).spec_cols() == old(self).spec_cols(),
            final(self).spec_rows() == old(self).spec_rows(),
            final(self)@ == other@,
        no_unwind
    {
        proof {
            use_type_invariant(&*self);
            use_type_invariant(other);
        }
        let len = self.cells.len();
        let mut i: usize = 0;
        while i < len
            invariant
                i <= len,
                len == self.cells@.len(),
                len == other.cells@.len(),
                self.cols == old(self).cols,
                self.rows == old(self).rows,
                len == self.cols * self.rows,
                forall|k: int| 0 <= k < i ==> self.cells@[k] == other.cells@[k],
            decreases len - i,
        {
            self.cells[i] = other.cells[i];
            i += 1;
        }
        assert(self.cells@ =~= other.cells@);
    }

    /// A grid of the given size that holds what this one holds: cells that
    /// both sizes have hold what this grid has there, cells that only the
    /// new size has hold `blank`.
    pub fn resized(&self, newcols: usize, newrows: usize, blank: Cell) -> (b: CellBuffer)
        requires
            newcols * newrows <= usize::MAX,
        ensures
            self.wf(),
            b.wf(),
            b.spec_cols() == newcols,
            b.spec_rows() == newrows,
            forall|x: int, y: int|
                0 <= x < newcols && 0 <= y < newrows ==> #[trigger] b.at(x, y) == self.resized_at(
                    x,
                    y,
                    blank,
                ),
            b@ == resized_cells(
                self@,
                self.spec_cols() as int,
                self.spec_rows() as int,
                newcols as int,
                newrows as int,
                blank,
            ),
    {
        proof {
            use_type_invariant(self);
        }
        let len = newcols * newrows;
        let mut cells: Vec<Cell> = Vec::with_capacity(len);
        let mut y: usize = 0;
        while y < newrows
            invariant
                self.wf(),
                self.cols == self.spec_cols(),
                self.rows == self.spec_rows(),
                self.cells@ == self@,
                newcols * newrows <= usize::MAX,
                y <= newrows,
                cells@.len() == offset_of(newcols as int, 0, y as int),
                forall|x1: int, y1: int|
                    0 <= x1 < newcols && 0 <= y1 < y ==> cells@[offset_of(newcols as int, x1, y1)]
                        == #[trigger] self.resized_at(x1, y1, blank),
            decreases newrows - y,
        {
            let mut x: usize = 0;
            while x < newcols
                invariant
                    self.wf(),
                    self.cols == self.spec_cols(),
                    self.rows == self.spec_rows(),
                    self.cells@ == self@,
                    newcols * newrows <= usize::MAX,
                    y < newrows,
                    x <= newcols,
                    cells@.len() == offset_of(newcols as int, x as int, y as int),
                    forall|x1: int, y1: int|
                        0 <= x1 < newcols && 0 <= y1 && (y1 < y || (y1 == y && x1 < x))
                            ==> cells@[offset_of(newcols as int, x1, y1)]
                            == #[trigger] self.resized_at(x1, y1, blank),
                decreases newcols - x,
            {
                let ghost before = cells@;
                let cell = if x < self.cols && y < self.rows {
                    proof {
                        lemma_offset_order(
                            self.cols as int,
                            self.rows as int,
                            x as int,
                            y as int,
                            0,
                            self.rows as int,
                        );
                    }
                    self.cells[y * self.cols + x]
                } else {
                    blank
                };
                cells.push(cell);
                assert forall|x1: int, y1: int|
                    0 <= x1 < newcols && 0 <= y1 && (y1 < y || (y1 == y && x1 < x + 1))
                        implies cells@[offset_of(newcols as int, x1, y1)]
                        == #[trigger] self.resized_at(x1, y1, blank) by {
                    if y1 < y || x1 < x {
                        lemma_offset_order(
                            newcols as int,
                            newrows as int,
                            x1,
                            y1,
                            x as int,
                            y as int,
                        );
                        assert(cells@[offset_of(newcols as int, x1, y1)] == before[offset_of(
                            newcols as int,
                            x1,
                            y1,
                        )]);
                    }
                }
                x += 1;
            }
            assert(offset_of(newcols as int, newcols as int, y as int) == offset_of(
                newcols as int,
                0,
                y + 1,
            )) by (nonlinear_arith);
            y += 1;
        }
        assert(offset_of(newcols as int, 0, newrows as int) == newcols * newrows)
            by (nonlinear_arith);
        let b = CellBuffer { cols: newcols, rows: newrows, cells };
        assert forall|x: int, y: int| 0 <= x < newcols && 0 <= y < newrows implies #[trigger] b.at(
            x,
            y,
        ) == self.resized_at(x, y, blank) by {}
        proof {
            let r = resized_cells(
                self@,
                self.spec_cols() as int,
                self.spec_rows() as int,
                newcols as int,
                newrows as int,
                blank,
            );
            assert forall|i: int| 0 <= i < b@.len() implies b@[i] == r[i] by {
                lemma_offset_cover(newcols as int, newrows as int, i);
                let x = i % (newcols as int);
                let y = i / (newcols as int);
                assert(b.at(x, y) == self.resized_at(x, y, blank));
            }
            assert(b@ =~= r);
        }
        b
    }

    /// Gives the grid a new size. Cells that both sizes have keep what they
    /// held; cells that only the new size has hold `blank`. With the size it
    /// already has, the grid is left as it is.
    pub fn resize(&mut self, newcols: usize, newrows: usize, blank: Cell)
        requires
            newcols * newrows <= usize::MAX,
        ensures
            final(self).wf(),
            final(self).spec_cols() == newcols,
            final(self).spec_rows() == newrows,
            forall|x: int, y: int|
                0 <= x < newcols && 0 <= y < newrows ==> #[trigger] final(self).at(x, y) == old(
                    self,
                ).resized_at(x, y, blank),
            newcols == old(self).spec_cols() && newrows == old(self).spec_rows() ==> final(self)@
                == old(self)@,
            final(self)@ == resized_cells(
                old(self)@,
                old(self).spec_cols() as int,
                old(self).spec_rows() as int,
                newcols as int,
                newrows as int,
                blank,
            ),
    {
        proof {
            use_type_invariant(&*self);
        }
        if self.cols == newcols && self.rows == newrows {
            proof {
                lemma_resize_same(self@, newcols as int, newrows as int, blank);
            }
            return ;
        }
        *self = self.resized(newcols, newrows, blank);
    }
}

impl Clone for CellBuffer {
    /// A grid of the same size that holds the same cells.
    fn clone(&self) -> (b: CellBuffer)
        ensures
            b.wf(),
            b.spec_cols() == self.spec_cols(),
            b.spec_rows() == self.spec_rows(),
            b@ == self@,
    {
        proof {
            use_type_invariant(self);
        }
        let cells = self.cells.clone();
        assert(cells@ =~= self.cells@);
        CellBuffer { cols: self.cols, rows: self.rows, cells }
    }
}

impl Default for CellBuffer {
    /// The grid of size `(0, 0)`.
    fn default() -> (b: CellBuffer)
        ensures
            b.wf(),
            b.spec_cols() == 0,
            b.spec_rows() == 0,
            b@ == Seq::<Cell>::empty(),
    {
        let b = CellBuffer::new(0, 0, Cell::default());
        assert(b@ =~= Seq::<Cell>::empty());
        b
    }
}

} // verus!
