//! Access to the cells of what can be drawn on.

use vstd::prelude::*;
use crate::cell::Cell;
use crate::cellbuffer::{lemma_offset_order, offset_of, CellBuffer};
use crate::position::Size;

verus! {

/// What holds a grid of cells that can be read and written by column and
/// row.
pub trait CellAccessor {
    /// The cells as a grid.
    spec fn grid(&self) -> CellBuffer;

    /// The size of the grid as `(cols, rows)`.
    fn dims(&self) -> (s: Size)
        ensures
            s.0 == self.grid().spec_cols(),
            s.1 == self.grid().spec_rows(),
            self.grid().wf(),
    ;

    /// The cells in row-major order.
    fn cellvec(&self) -> (v: &Vec<Cell>)
        ensures
            v@ == self.grid()@,
    ;

    /// Overwrites every cell with `blank`.
    fn clear(&mut self, blank: Cell)
        ensures
            final(self).grid().wf(),
            final(self).grid().spec_cols() == old(self).grid().spec_cols(),
            final(self).grid().spec_rows() == old(self).grid().spec_rows(),
            final(self).grid()@ == Seq::new(old(self).grid()@.len(), |i: int| blank),
    ;

    /// Where the cell in column `x` and row `y` lies among the cells in
    /// row-major order, or `None` where there is no such cell.
    fn pos_to_index(&self, x: usize, y: usize) -> (r: Option<usize>)
        ensures
            r == if self.grid().in_bounds(x as int, y as int) {
                Some(offset_of(self.grid().spec_cols() as int, x as int, y as int) as usize)
            } else {
                None::<usize>
            },
    ;

    /// The cell in column `x` and row `y`, or `None` where there is no
    /// such cell.
    fn get(&self, x: usize, y: usize) -> (r: Option<&Cell>)
        ensures
            self.grid().wf(),
            match r {
                Some(c) => self.grid().in_bounds(x as int, y as int) && *c == self.grid().at(
                    x as int,
                    y as int,
                ),
                None => !self.grid().in_bounds(x as int, y as int),
            },
    ;

    /// A mutable reference to the cell in column `x` and row `y`, or
    /// `None` where there is no such cell. Writing through the reference
    /// changes that cell and no other.
    fn get_mut(&mut self, x: usize, y: usize) -> (r: Option<&mut Cell>)
        ensures
            final(self).grid().wf(),
            final(self).grid().spec_cols() == old(self).grid().spec_cols(),
            final(self).grid().spec_rows() == old(self).grid().spec_rows(),
            match r {
                Some(c) => {
                    &&& old(self).grid().in_bounds(x as int, y as int)
                    &&& *c == old(self).grid().at(x as int, y as int)
                    &&& final(self).grid()@ == old(self).grid()@.update(
                        offset_of(old(self).grid().spec_cols() as int, x as int, y as int),
                        *final(c),
                    )
                },
                None => !old(self).grid().in_bounds(x as int, y as int) && final(self).grid()@
                    == old(self).grid()@,
            },
    ;

    /// Puts `cell` into column `x` and row `y`. Where there is no such
    /// cell, nothing happens.
    fn set_cell(&mut self, x: usize, y: usize, cell: Cell)
        ensures
            final(self).grid().wf(),
            final(self).grid().spec_cols() == old(self).grid().spec_cols(),
            final(self).grid().spec_rows() == old(self).grid().spec_rows(),
            forall|tx: int, ty: int|
                old(self).grid().in_bounds(tx, ty) ==> #[trigger] final(self).grid().at(tx, ty)
                    == if tx == x && ty == y {
                    cell
                } else {
                    old(self).grid().at(tx, ty)
                },
    ;
}

impl CellAccessor for CellBuffer {
    open spec fn grid(&self) -> CellBuffer {
        *self
    }

    fn dims(&self) -> (s: Size) {
        self.size()
    }

    fn cellvec(&self) -> (v: &Vec<Cell>) {
        self.cells()
    }

    fn clear(&mut self, blank: Cell) {
        CellBuffer::clear(self, blank);
    }

    fn pos_to_index(&self, x: usize, y: usize) -> (r: Option<usize>) {
        let (cols, rows) = self.size();
        if x < cols && y < rows {
            proof {
                lemma_offset_order(cols as int, rows as int, x as int, y as int, 0, rows as int);
            }
            Some((cols * y) + x)
        } else {
            None
        }
    }

    fn get(&self, x: usize, y: usize) -> (r: Option<&Cell>) {
        CellBuffer::get(self, x, y)
    }

    fn get_mut(&mut self, x: usize, y: usize) -> (r: Option<&mut Cell>) {
        CellBuffer::get_mut(self, x, y)
    }

    fn set_cell(&mut self, x: usize, y: usize, cell: Cell) {
        CellBuffer::set_cell(self, x, y, cell);
    }
}

} // verus!
