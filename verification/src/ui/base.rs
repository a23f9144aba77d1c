//! Plain widgets: a grid of cells at a place on the screen and nothing
//! more.

use vstd::prelude::*;
use crate::cell::Cell;
use crate::cellbuffer::CellBuffer;
use crate::position::{HasPosition, HasSize, Pos, Size};
use crate::ui::accessor::CellAccessor;
use crate::ui::alignable::Alignable;
use crate::ui::frame::{draw_grid, drawn_at};

verus! {

/// The base of a widget: a grid of cells at a place on the screen.
#[derive(Debug)]
pub struct Base {
    pub origin: Pos,
    pub buf: CellBuffer,
}

/// A plain widget: a grid of cells at a place on the screen.
#[derive(Debug)]
pub struct Widget {
    pub origin: Pos,
    pub buf: CellBuffer,
}

impl Base {
    /// A base of the given size at the top left corner of the screen, in
    /// which every cell is a blank with default styles.
    pub fn new(cols: usize, rows: usize) -> (b: Base)
        requires
            cols * rows <= usize::MAX,
        ensures
            b.origin == (0usize, 0usize),
            b.buf.wf(),
            b.buf.spec_cols() == cols,
            b.buf.spec_rows() == rows,
            b.buf@ == Seq::new((cols * rows) as nat, |i: int| Cell::spec_default()),
    {
        Base { origin: (0, 0), buf: CellBuffer::new(cols, rows, Cell::default()) }
    }

    /// Draws the base into `cells` at the base's place. The parts of the
    /// base that lie outside `cells` are left out.
    pub fn draw_into<T: CellAccessor>(&self, cells: &mut T)
        ensures
            final(cells).grid().wf(),
            final(cells).grid().spec_cols() == old(cells).grid().spec_cols(),
            final(cells).grid().spec_rows() == old(cells).grid().spec_rows(),
            forall|tx: int, ty: int|
                old(cells).grid().in_bounds(tx, ty) ==> #[trigger] final(cells).grid().at(tx, ty)
                    == drawn_at(self.buf, self.origin, old(cells).grid(), tx, ty),
    {
        draw_grid(&self.buf, self.origin, cells)
    }
}

impl Widget {
    /// A widget of the given size at the top left corner of the screen,
    /// in which every cell is a blank with default styles.
    pub fn new(cols: usize, rows: usize) -> (w: Widget)
        requires
            cols * rows <= usize::MAX,
        ensures
            w.origin == (0usize, 0usize),
            w.buf.wf(),
            w.buf.spec_cols() == cols,
            w.buf.spec_rows() == rows,
            w.buf@ == Seq::new((cols * rows) as nat, |i: int| Cell::spec_default()),
    {
        Widget { origin: (0, 0), buf: CellBuffer::new(cols, rows, Cell::default()) }
    }

    /// Draws the widget into `cells` at the widget's place. The parts of
    /// the widget that lie outside `cells` are left out.
    pub fn draw_into<T: CellAccessor>(&self, cells: &mut T)
        ensures
            final(cells).grid().wf(),
            final(cells).grid().spec_cols() == old(cells).grid().spec_cols(),
            final(cells).grid().spec_rows() == old(cells).grid().spec_rows(),
            forall|tx: int, ty: int|
                old(cells).grid().in_bounds(tx, ty) ==> #[trigger] final(cells).grid().at(tx, ty)
                    == drawn_at(self.buf, self.origin, old(cells).grid(), tx, ty),
    {
        draw_grid(&self.buf, self.origin, cells)
    }
}

impl HasSize for Base {
    open spec fn spec_size(&self) -> Size {
        (self.buf.spec_cols() as usize, self.buf.spec_rows() as usize)
    }

    fn size(&self) -> (s: Size) {
        self.buf.size()
    }
}

impl HasSize for Widget {
    open spec fn spec_size(&self) -> Size {
        (self.buf.spec_cols() as usize, self.buf.spec_rows() as usize)
    }

    fn size(&self) -> (s: Size) {
        self.buf.size()
    }
}

impl HasPosition for Base {
    open spec fn spec_origin(&self) -> Pos {
        self.origin
    }

    open spec fn moved_to(self, p: Pos) -> Base {
        Base { origin: p, buf: self.buf }
    }

    fn origin(&self) -> (p: Pos) {
        self.origin
    }

    fn set_origin(&mut self, new_origin: Pos) {
        self.origin = new_origin;
    }
}

impl HasPosition for Widget {
    open spec fn spec_origin(&self) -> Pos {
        self.origin
    }

    open spec fn moved_to(self, p: Pos) -> Widget {
        Widget { origin: p, buf: self.buf }
    }

    fn origin(&self) -> (p: Pos) {
        self.origin
    }

    fn set_origin(&mut self, new_origin: Pos) {
        self.origin = new_origin;
    }
}

impl CellAccessor for Base {
    open spec fn grid(&self) -> CellBuffer {
        self.buf
    }

    fn dims(&self) -> (s: Size) {
        self.buf.size()
    }

    fn cellvec(&self) -> (v: &Vec<Cell>) {
        self.buf.cells()
    }

    fn clear(&mut self, blank: Cell)
        ensures
            final(self).origin == old(self).origin,
    {
        self.buf.clear(blank);
    }

    fn pos_to_index(&self, x: usize, y: usize) -> (r: Option<usize>) {
        self.buf.pos_to_index(x, y)
    }

    fn get(&self, x: usize, y: usize) -> (r: Option<&Cell>) {
        self.buf.get(x, y)
    }

    fn get_mut(&mut self, x: usize, y: usize) -> (r: Option<&mut Cell>)
        ensures
            final(self).origin == old(self).origin,
    {
        self.buf.get_mut(x, y)
    }

    fn set_cell(&mut self, x: usize, y: usize, cell: Cell)
        ensures
            final(self).origin == old(self).origin,
    {
        self.buf.set_cell(x, y, cell);
    }
}

impl CellAccessor for Widget {
    open spec fn grid(&self) -> CellBuffer {
        self.buf
    }

    fn dims(&self) -> (s: Size) {
        self.buf.size()
    }

    fn cellvec(&self) -> (v: &Vec<Cell>) {
        self.buf.cells()
    }

    fn clear(&mut self, blank: Cell)
        ensures
            final(self).origin == old(self).origin,
    {
        self.buf.clear(blank);
    }

    fn pos_to_index(&self, x: usize, y: usize) -> (r: Option<usize>) {
        self.buf.pos_to_index(x, y)
    }

    fn get(&self, x: usize, y: usize) -> (r: Option<&Cell>) {
        self.buf.get(x, y)
    }

    fn get_mut(&mut self, x: usize, y: usize) -> (r: Option<&mut Cell>)
        ensures
            final(self).origin == old(self).origin,
    {
        self.buf.get_mut(x, y)
    }

    fn set_cell(&mut self, x: usize, y: usize, cell: Cell)
        ensures
            final(self).origin == old(self).origin,
    {
        self.buf.set_cell(x, y, cell);
    }
}

impl Alignable for Base {
    proof fn lemma_moved(self, p: Pos) {
    }
}

impl Alignable for Widget {
    proof fn lemma_moved(self, p: Pos) {
    }
}

} // verus!
