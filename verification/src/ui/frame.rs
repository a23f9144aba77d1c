//! The frame: the grid of cells and the place on the screen that every
//! widget has.

use vstd::prelude::*;
use crate::cell::Cell;
use crate::cellbuffer::CellBuffer;
use crate::position::{HasPosition, HasSize, Pos, Size};
use crate::ui::accessor::CellAccessor;

verus! {

/// A grid of cells with a place on the screen.
#[derive(Debug)]
pub struct Frame {
    /// The position of the top left corner.
    pub origin: Pos,
    /// The cells.
    pub buf: CellBuffer,
}

/// What a cell of a target holds after something of the size
/// `(cols, rows)` whose top left corner is at `origin` was drawn into it:
/// the cell of the source that lies over it, or what it held where the
/// source does not reach.
pub open spec fn drawn_at(
    source: CellBuffer,
    origin: Pos,
    target: CellBuffer,
    tx: int,
    ty: int,
) -> Cell {
    if origin.0 <= tx < origin.0 + source.spec_cols() && origin.1 <= ty < origin.1
        + source.spec_rows() {
        source.at(tx - origin.0, ty - origin.1)
    } else {
        target.at(tx, ty)
    }
}

/// Draws a grid into a target with its top left corner at `origin`. The
/// parts of the grid that lie outside the target are left out.
pub fn draw_grid<T: CellAccessor>(source: &CellBuffer, origin: Pos, cells: &mut T)
    ensures
        final(cells).grid().wf(),
        final(cells).grid().spec_cols() == old(cells).grid().spec_cols(),
        final(cells).grid().spec_rows() == old(cells).grid().spec_rows(),
        forall|tx: int, ty: int|
            old(cells).grid().in_bounds(tx, ty) ==> #[trigger] final(cells).grid().at(tx, ty)
                == drawn_at(*source, origin, old(cells).grid(), tx, ty),
{
    let (cols, rows) = source.size();
    let (x, y) = origin;
    let (tcols, trows) = cells.dims();
    if x >= tcols || y >= trows {
        return ;
    }
    // The part of the source that lies over the target.
    let width = if cols < tcols - x {
        cols
    } else {
        tcols - x
    };
    let height = if rows < trows - y {
        rows
    } else {
        trows - y
    };
    let mut iy: usize = 0;
    while iy < height
        invariant
            origin == (x, y),
            source.wf(),
            cols == source.spec_cols(),
            rows == source.spec_rows(),
            x < tcols,
            y < trows,
            width <= cols,
            width <= tcols - x,
            width == cols || width == tcols - x,
            height <= rows,
            height <= trows - y,
            height == rows || height == trows - y,
            iy <= height,
            cells.grid().wf(),
            cells.grid().spec_cols() == tcols,
            cells.grid().spec_rows() == trows,
            old(cells).grid().spec_cols() == tcols,
            old(cells).grid().spec_rows() == trows,
            forall|tx: int, ty: int|
                old(cells).grid().in_bounds(tx, ty) ==> #[trigger] cells.grid().at(tx, ty) == if ty
                    < y + iy {
                    drawn_at(*source, origin, old(cells).grid(), tx, ty)
                } else {
                    old(cells).grid().at(tx, ty)
                },
        decreases height - iy,
    {
        let mut ix: usize = 0;
        while ix < width
            invariant
                origin == (x, y),
                source.wf(),
                cols == source.spec_cols(),
                rows == source.spec_rows(),
                x < tcols,
                y < trows,
                width <= cols,
                width <= tcols - x,
                width == cols || width == tcols - x,
                height <= rows,
                height <= trows - y,
                iy < height,
                ix <= width,
                cells.grid().wf(),
                cells.grid().spec_cols() == tcols,
                cells.grid().spec_rows() == trows,
                old(cells).grid().spec_cols() == tcols,
                old(cells).grid().spec_rows() == trows,
                forall|tx: int, ty: int|
                    old(cells).grid().in_bounds(tx, ty) ==> #[trigger] cells.grid().at(tx, ty)
                        == if ty < y + iy || (ty == y + iy && tx < x + ix) {
                        drawn_at(*source, origin, old(cells).grid(), tx, ty)
                    } else {
                        old(cells).grid().at(tx, ty)
                    },
            decreases width - ix,
        {
            let cell = *source.index(ix, iy);
            let ghost before = cells.grid();
            cells.set_cell(x + ix, y + iy, cell);
            assert forall|tx: int, ty: int| old(cells).grid().in_bounds(tx, ty) implies #[trigger] cells.grid().at(
                tx,
                ty,
            ) == if ty < y + iy || (ty == y + iy && tx < x + ix + 1) {
                drawn_at(*source, origin, old(cells).grid(), tx, ty)
            } else {
                old(cells).grid().at(tx, ty)
            } by {
                assert(before.in_bounds(tx, ty));
                assert(cells.grid().at(tx, ty) == if tx == x + ix && ty == y + iy {
                    cell
                } else {
                    before.at(tx, ty)
                });
            }
            ix += 1;
        }
        iy += 1;
    }
}

impl Frame {
    /// The cells of the frame as a grid.
    pub open spec fn cells(&self) -> CellBuffer {
        self.buf
    }

    /// The position of the frame's top left corner.
    pub open spec fn place(&self) -> Pos {
        self.origin
    }

    /// A frame of the given size at the top left corner of the screen, in
    /// which every cell is a blank with default styles.
    pub fn new(cols: usize, rows: usize) -> (f: Frame)
        requires
            cols * rows <= usize::MAX,
        ensures
            f.place() == (0usize, 0usize),
            f.cells().wf(),
            f.cells().spec_cols() == cols,
            f.cells().spec_rows() == rows,
            f.cells()@ == Seq::new((cols * rows) as nat, |i: int| Cell::spec_default()),
    {
        Frame { origin: (0, 0), buf: CellBuffer::new(cols, rows, Cell::default()) }
    }

    /// Draws the frame into `cells` at the frame's place. The parts of the
    /// frame that lie outside `cells` are left out.
    pub fn draw_into<T: CellAccessor>(&self, cells: &mut T)
        ensures
            final(cells).grid().wf(),
            final(cells).grid().spec_cols() == old(cells).grid().spec_cols(),
            final(cells).grid().spec_rows() == old(cells).grid().spec_rows(),
            forall|tx: int, ty: int|
                old(cells).grid().in_bounds(tx, ty) ==> #[trigger] final(cells).grid().at(tx, ty)
                    == drawn_at(self.cells(), self.place(), old(cells).grid(), tx, ty),
    {
        draw_grid(&self.buf, self.origin, cells)
    }

    /// Gives the frame a new size. Cells that both sizes have keep what
    /// they held; the others are blank with default styles.
    pub fn resize(&mut self, new_size: Size)
        requires
            new_size.0 * new_size.1 <= usize::MAX,
        ensures
            final(self).place() == old(self).place(),
            final(self).cells().wf(),
            final(self).cells().spec_cols() == new_size.0,
            final(self).cells().spec_rows() == new_size.1,
            forall|x: int, y: int|
                0 <= x < new_size.0 && 0 <= y < new_size.1 ==> #[trigger] final(self).cells().at(
                    x,
                    y,
                ) == old(self).cells().resized_at(x, y, Cell::spec_default()),
    {
        self.buf.resize(new_size.0, new_size.1, Cell::default());
    }
}

impl HasSize for Frame {
    open spec fn spec_size(&self) -> Size {
        (self.cells().spec_cols() as usize, self.cells().spec_rows() as usize)
    }

    fn size(&self) -> (s: Size) {
        self.buf.size()
    }
}

impl HasPosition for Frame {
    open spec fn spec_origin(&self) -> Pos {
        self.place()
    }

    open spec fn moved_to(self, p: Pos) -> Frame {
        Frame { origin: p, buf: self.buf }
    }

    fn origin(&self) -> (p: Pos) {
        self.origin
    }

    fn set_origin(&mut self, new_origin: Pos) {
        self.origin = new_origin;
    }
}

impl CellAccessor for Frame {
    open spec fn grid(&self) -> CellBuffer {
        self.cells()
    }

    fn dims(&self) -> (s: Size) {
        self.buf.size()
    }

    fn cellvec(&self) -> (v: &Vec<Cell>) {
        self.buf.cells()
    }

    fn clear(&mut self, blank: Cell)
        ensures
            final(self).place() == old(self).place(),
    {
        self.buf.clear(blank);
    }

    fn pos_to_index(&self, x: usize, y: usize) -> (r: Option<usize>) {
        self.buf.pos_to_index(x, y)
    }

    fn get(&self, x: usize, y: usize) -> (r: Option<&Cell>) {
        self.buf.get(x, y)
    }

    fn get_mut(&mut self, x: usize, y: usize) -> (r: Option<&mut Cell>)
        ensures
            final(self).place() == old(self).place(),
    {
        self.buf.get_mut(x, y)
    }

    fn set_cell(&mut self, x: usize, y: usize, cell: Cell)
        ensures
            final(self).place() == old(self).place(),
    {
        self.buf.set_cell(x, y, cell);
    }
}

} // verus!
