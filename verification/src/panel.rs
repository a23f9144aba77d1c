//! Panels: grids of cells to draw on, and what can be drawn on them.

use vstd::prelude::*;
use crate::cell::Cell;
use crate::cellbuffer::{
    lemma_offset_cover, lemma_offset_injective, lemma_offset_order, offset_of, CellBuffer,
};
use crate::position::{HasSize, Size};

verus! {

/// A grid of cells to draw on.
#[derive(Debug)]
pub struct Panel {
    grid: CellBuffer,
}

impl View for Panel {
    type V = Seq<Cell>;

    /// The cells in row-major order.
    closed spec fn view(&self) -> Seq<Cell> {
        self.grid@
    }
}

impl Panel {
    /// The panel as a cell buffer.
    pub closed spec fn grid(&self) -> CellBuffer {
        self.grid
    }

    /// The width of the panel.
    pub open spec fn spec_cols(&self) -> nat {
        self.grid().spec_cols()
    }

    /// The height of the panel.
    pub open spec fn spec_rows(&self) -> nat {
        self.grid().spec_rows()
    }

    /// The panel holds one cell for each of its coordinates.
    pub open spec fn wf(&self) -> bool {
        self.grid().wf() && self@ == self.grid()@
    }

    /// Whether `(x, y)` names a cell of the panel.
    pub open spec fn in_bounds(&self, x: int, y: int) -> bool {
        self.grid().in_bounds(x, y)
    }

    /// The cell in column `x` and row `y`.
    pub open spec fn at(&self, x: int, y: int) -> Cell {
        self.grid().at(x, y)
    }

    /// A panel without any cell.
    pub fn new() -> (p: Panel)
        ensures
            p.wf(),
            p.spec_cols() == 0,
            p.spec_rows() == 0,
            p@ == Seq::<Cell>::empty(),
    {
        Panel { grid: CellBuffer::default() }
    }

    /// A panel of the given size in which every cell is `value`.
    pub fn with_size(cols: usize, rows: usize, value: Cell) -> (p: Panel)
        requires
            cols * rows <= usize::MAX,
        ensures
            p.wf(),
            p.spec_cols() == cols,
            p.spec_rows() == rows,
            p@ == Seq::new((cols * rows) as nat, |i: int| value),
    {
        Panel { grid: CellBuffer::new(cols, rows, value) }
    }

    /// Where the cell in column `x` and row `y` lies among the cells of the
    /// panel in row-major order.
    pub fn offset(&self, x: usize, y: usize) -> (i: usize)
        requires
            offset_of(self.spec_cols() as int, x as int, y as int) <= usize::MAX,
        ensures
            i == offset_of(self.spec_cols() as int, x as int, y as int),
    {
        let cols = self.grid.cols();
        assert(0 <= y * cols) by (nonlinear_arith)
            requires
                0 <= y,
                0 <= cols,
        ;
        assert(cols * y == y * cols) by (nonlinear_arith);
        (cols * y) + x
    }

    /// The height of the panel in rows.
    pub fn rows(&self) -> (r: usize)
        ensures
            r == self.spec_rows(),
            self.wf(),
    {
        self.grid.rows()
    }

    /// The width of the panel in columns.
    pub fn cols(&self) -> (c: usize)
        ensures
            c == self.spec_cols(),
            self.wf(),
    {
        self.grid.cols()
    }

    /// The size of the panel as `(cols, rows)`.
    pub fn size(&self) -> (s: (usize, usize))
        ensures
            s.0 == self.spec_cols(),
            s.1 == self.spec_rows(),
            self.wf(),
    {
        self.grid.size()
    }

    /// The cells in row-major order.
    pub fn cells(&self) -> (v: &Vec<Cell>)
        ensures
            v@ == self@,
            self.wf(),
    {
        self.grid.cells()
    }

    /// Overwrites every cell with `value`; the size stays.
    pub fn clear(&mut self, value: Cell)
        ensures
            final(self).wf(),
            final(self).spec_cols() == old(self).spec_cols(),
            final(self).spec_rows() == old(self).spec_rows(),
            final(self)@ == Seq::new(old(self)@.len(), |i: int| value),
    {
        self.grid.clear(value);
    }

    /// The cell in column `x` and row `y`, or `None` where the panel has no
    /// such cell.
    pub fn get(&self, x: usize, y: usize) -> (r: Option<&Cell>)
        ensures
            self.wf(),
            match r {
                Some(c) => self.in_bounds(x as int, y as int) && *c == self.at(x as int, y as int),
                None => !self.in_bounds(x as int, y as int),
            },
    {
        self.grid.get(x, y)
    }

    /// A mutable reference to the cell in column `x` and row `y`, or `None`
    /// where the panel has no such cell. Writing through the reference
    /// changes that cell and no other.
    pub fn get_mut(&mut self, x: usize, y: usize) -> (r: Option<&mut Cell>)
        ensures
            old(self).wf(),
            final(self).wf(),
            final(self).spec_cols() == old(self).spec_cols(),
            final(self).spec_rows() == old(self).spec_rows(),
            match r {
                Some(c) => {
                    &&& old(self).in_bounds(x as int, y as int)
                    &&& *c == old(self).at(x as int, y as int)
                    &&& final(self)@ == old(self)@.update(
                        offset_of(old(self).spec_cols() as int, x as int, y as int),
                        *final(c),
                    )
                },
                None => !old(self).in_bounds(x as int, y as int) && final(self)@ == old(self)@,
            },
    {
        self.grid.get_mut(x, y)
    }

    /// Puts `cell` into column `x` and row `y`. Where the panel has no
    /// such cell, nothing happens.
    pub fn set_cell(&mut self, x: usize, y: usize, cell: Cell)
        ensures
            final(self).wf(),
            final(self).spec_cols() == old(self).spec_cols(),
            final(self).spec_rows() == old(self).spec_rows(),
            forall|tx: int, ty: int|
                old(self).in_bounds(tx, ty) ==> #[trigger] final(self).at(tx, ty) == if tx == x
                    && ty == y {
                    cell
                } else {
                    old(self).at(tx, ty)
                },
    {
        self.grid.set_cell(x, y, cell);
    }

    /// Puts the character `ch` into the cell in column `x` and row `y` and
    /// leaves its styles. Where the panel has no such cell, nothing
    /// happens.
    pub fn set_ch(&mut self, x: usize, y: usize, ch: char)
        ensures
            final(self).wf(),
            final(self).spec_cols() == old(self).spec_cols(),
            final(self).spec_rows() == old(self).spec_rows(),
            forall|tx: int, ty: int|
                old(self).in_bounds(tx, ty) ==> #[trigger] final(self).at(tx, ty) == if tx == x
                    && ty == y {
                    Cell { ch, ..old(self).at(tx, ty) }
                } else {
                    old(self).at(tx, ty)
                },
    {
        self.grid.set_ch(x, y, ch);
    }

    /// Gives the panel a new size. Cells that both sizes have keep what
    /// they held; cells that only the new size has hold `value`.
    pub fn resize(&mut self, newcols: usize, newrows: usize, value: Cell)
        requires
            newcols * newrows <= usize::MAX,
        ensures
            final(self).wf(),
            final(self).spec_cols() == newcols,
            final(self).spec_rows() == newrows,
            forall|x: int, y: int|
                0 <= x < newcols && 0 <= y < newrows ==> #[trigger] final(self).at(x, y) == old(
                    self,
                ).grid().resized_at(x, y, value),
            newcols == old(self).spec_cols() && newrows == old(self).spec_rows() ==> final(self)@
                == old(self)@,
    {
        self.grid.resize(newcols, newrows, value);
    }
}

impl HasSize for Panel {
    open spec fn spec_size(&self) -> Size {
        (self.spec_cols() as usize, self.spec_rows() as usize)
    }

    fn size(&self) -> (s: Size) {
        self.grid.size()
    }
}

/// What can be drawn on a panel.
pub trait Draw {
    /// Whether `self` can be drawn on `target` at column `x`, row `y`.
    spec fn can_draw(&self, x: usize, y: usize, target: &Panel) -> bool;

    /// What the cell of `target` in column `tx` and row `ty` holds after
    /// `self` was drawn on it at column `x`, row `y`.
    spec fn drawn(&self, x: usize, y: usize, target: &Panel, tx: int, ty: int) -> Cell;

    /// Draws `self` on `target` at column `x`, row `y`.
    fn draw(&self, x: usize, y: usize, target: &mut Panel)
        requires
            self.can_draw(x, y, old(target)),
        ensures
            final(target).wf(),
            final(target).spec_cols() == old(target).spec_cols(),
            final(target).spec_rows() == old(target).spec_rows(),
            forall|tx: int, ty: int|
                old(target).in_bounds(tx, ty) ==> #[trigger] final(target).at(tx, ty) == self.drawn(
                    x,
                    y,
                    old(target),
                    tx,
                    ty,
                ),
    ;
}

impl Draw for char {
    open spec fn can_draw(&self, x: usize, y: usize, target: &Panel) -> bool {
        true
    }

    /// The cell at `(x, y)` gets the character and keeps its styles.
    open spec fn drawn(&self, x: usize, y: usize, target: &Panel, tx: int, ty: int) -> Cell {
        if tx == x && ty == y {
            Cell { ch: *self, ..target.at(tx, ty) }
        } else {
            target.at(tx, ty)
        }
    }

    fn draw(&self, x: usize, y: usize, target: &mut Panel) {
        target.set_ch(x, y, *self);
    }
}

impl Draw for Panel {
    open spec fn can_draw(&self, x: usize, y: usize, target: &Panel) -> bool {
        true
    }

    /// The cells under the panel get what the panel holds; the parts of
    /// the panel that lie outside the target are left out.
    open spec fn drawn(&self, x: usize, y: usize, target: &Panel, tx: int, ty: int) -> Cell {
        if x <= tx < x + self.spec_cols() && y <= ty < y + self.spec_rows() {
            self.at(tx - x, ty - y)
        } else {
            target.at(tx, ty)
        }
    }

    fn draw(&self, x: usize, y: usize, target: &mut Panel) {
        let (scols, srows) = Panel::size(self);
        let (tcols, trows) = Panel::size(target);
        if x >= tcols || y >= trows {
            return ;
        }
        let width = if scols < tcols - x {
            scols
        } else {
            tcols - x
        };
        let height = if srows < trows - y {
            srows
        } else {
            trows - y
        };
        let mut iy: usize = 0;
        while iy < height
            invariant
                self.wf(),
                scols == self.spec_cols(),
                srows == self.spec_rows(),
                x < tcols,
                y < trows,
                width <= scols,
                width <= tcols - x,
                width == scols || width == tcols - x,
                height <= srows,
                height <= trows - y,
                height == srows || height == trows - y,
                iy <= height,
                target.wf(),
                target.spec_cols() == tcols,
                target.spec_rows() == trows,
                old(target).spec_cols() == tcols,
                old(target).spec_rows() == trows,
                forall|tx: int, ty: int|
                    old(target).in_bounds(tx, ty) ==> #[trigger] target.at(tx, ty) == if ty < y
                        + iy {
                        self.drawn(x, y, old(target), tx, ty)
                    } else {
                        old(target).at(tx, ty)
                    },
            decreases height - iy,
        {
            let mut ix: usize = 0;
            while ix < width
                invariant
                    self.wf(),
                    scols == self.spec_cols(),
                    srows == self.spec_rows(),
                    x < tcols,
                    y < trows,
                    width <= scols,
                    width <= tcols - x,
                    width == scols || width == tcols - x,
                    height <= srows,
                    height <= trows - y,
                    iy < height,
                    ix <= width,
                    target.wf(),
                    target.spec_cols() == tcols,
                    target.spec_rows() == trows,
                    old(target).spec_cols() == tcols,
                    old(target).spec_rows() == trows,
                    forall|tx: int, ty: int|
                        old(target).in_bounds(tx, ty) ==> #[trigger] target.at(tx, ty) == if ty < y
                            + iy || (ty == y + iy && tx < x + ix) {
                            self.drawn(x, y, old(target), tx, ty)
                        } else {
                            old(target).at(tx, ty)
                        },
                decreases width - ix,
            {
                let cell = *self.grid.index(ix, iy);
                let ghost before = *target;
                target.set_cell(x + ix, y + iy, cell);
                assert forall|tx: int, ty: int| old(target).in_bounds(tx, ty) implies #[trigger] target.at(
                    tx,
                    ty,
                ) == if ty < y + iy || (ty == y + iy && tx < x + ix + 1) {
                    self.drawn(x, y, old(target), tx, ty)
                } else {
                    old(target).at(tx, ty)
                } by {
                    assert(before.in_bounds(tx, ty));
                    assert(target.at(tx, ty) == if tx == x + ix && ty == y + iy {
                        cell
                    } else {
                        before.at(tx, ty)
                    });
                }
                ix += 1;
            }
            iy += 1;
        }
    }
}

impl Draw for str {
    /// The place at which the text begins fits the machine.
    open spec fn can_draw(&self, x: usize, y: usize, target: &Panel) -> bool {
        offset_of(target.spec_cols() as int, x as int, y as int) <= usize::MAX
    }

    /// The cells from `(x, y)` on, in row-major order and on into the
    /// rows below, get the characters of the text, one each, and keep
    /// their styles.
    open spec fn drawn(&self, x: usize, y: usize, target: &Panel, tx: int, ty: int) -> Cell {
        let start = offset_of(target.spec_cols() as int, x as int, y as int);
        let i = offset_of(target.spec_cols() as int, tx, ty);
        if start <= i < start + self@.len() {
            Cell { ch: self@[i - start], ..target.at(tx, ty) }
        } else {
            target.at(tx, ty)
        }
    }

    fn draw(&self, x: usize, y: usize, target: &mut Panel) {
        let offset = target.offset(x, y);
        let (cols, rows) = Panel::size(target);
        assert(0 <= cols * rows) by (nonlinear_arith)
            requires
                0 <= cols,
                0 <= rows,
        ;
        let len = cols * rows;
        if offset >= len {
            proof {
                assert forall|tx: int, ty: int| old(target).in_bounds(tx, ty) implies offset_of(
                    cols as int,
                    tx,
                    ty,
                ) < len by {
                    lemma_offset_order(cols as int, rows as int, tx, ty, 0, rows as int);
                }
            }
            return ;
        }
        let chars = crate::text::chars_of(self);
        let n = if chars.len() < len - offset {
            chars.len()
        } else {
            len - offset
        };
        let mut k: usize = 0;
        while k < n
            invariant
                chars@ == self@,
                offset == offset_of(cols as int, x as int, y as int),
                len == cols * rows,
                offset < len,
                n <= chars@.len(),
                n <= len - offset,
                n == chars@.len() || n == len - offset,
                k <= n,
                target.wf(),
                target.spec_cols() == cols,
                target.spec_rows() == rows,
                old(target).spec_cols() == cols,
                old(target).spec_rows() == rows,
                forall|tx: int, ty: int|
                    old(target).in_bounds(tx, ty) ==> #[trigger] target.at(tx, ty) == if offset_of(
                        cols as int,
                        tx,
                        ty,
                    ) < offset + k {
                        self.drawn(x, y, old(target), tx, ty)
                    } else {
                        old(target).at(tx, ty)
                    },
            decreases n - k,
        {
            let i = offset + k;
            proof {
                lemma_offset_cover(cols as int, rows as int, i as int);
            }
            let cx = i % cols;
            let cy = i / cols;
            let ghost before = *target;
            target.set_ch(cx, cy, chars[k]);
            assert forall|tx: int, ty: int| old(target).in_bounds(tx, ty) implies #[trigger] target.at(
                tx,
                ty,
            ) == if offset_of(cols as int, tx, ty) < offset + k + 1 {
                self.drawn(x, y, old(target), tx, ty)
            } else {
                old(target).at(tx, ty)
            } by {
                assert(before.in_bounds(tx, ty));
                assert(target.at(tx, ty) == if tx == cx && ty == cy {
                    Cell { ch: chars@[k as int], ..before.at(tx, ty) }
                } else {
                    before.at(tx, ty)
                });
                if offset_of(cols as int, tx, ty) == i {
                    lemma_offset_injective(cols as int, tx, ty, cx as int, cy as int);
                }
            }
            k += 1;
        }
        proof {
            assert forall|tx: int, ty: int| old(target).in_bounds(tx, ty) implies #[trigger] target.at(
                tx,
                ty,
            ) == self.drawn(x, y, old(target), tx, ty) by {
                lemma_offset_order(cols as int, rows as int, tx, ty, 0, rows as int);
            }
        }
    }
}

} // verus!
