//! The canvas: a frame whose cells the caller draws on directly.

use vstd::prelude::*;
use crate::cell::Cell;
use crate::cellbuffer::offset_of;
use crate::position::{HasPosition, HasSize, Pos, Size};
use crate::ui::accessor::CellAccessor;
use crate::ui::alignable::Alignable;
use crate::ui::attributes::{HorizontalAlign, VerticalAlign};
use crate::ui::frame::Frame;
use crate::ui::painter::Painter;
use crate::ui::widget::Widget;

verus! {

/// A widget that is nothing but its cells, for the caller to draw on.
#[derive(Debug)]
pub struct Canvas {
    pub frame: Frame,
}

impl Canvas {
    /// A canvas `cols` wide and `rows` high, blank throughout, at the top
    /// left corner of the screen.
    pub fn new(cols: usize, rows: usize) -> (c: Canvas)
        requires
            cols * rows <= usize::MAX,
        ensures
            c.frame.origin == (0usize, 0usize),
            c.frame.buf.wf(),
            c.frame.buf.spec_cols() == cols,
            c.frame.buf.spec_rows() == rows,
            c.frame.buf@ == Seq::new((cols * rows) as nat, |i: int| Cell::spec_default()),
    {
        Canvas { frame: Frame::new(cols, rows) }
    }

    /// The size of the canvas as `(cols, rows)`.
    pub fn size(&self) -> (s: Size)
        ensures
            s.0 == self.frame.buf.spec_cols(),
            s.1 == self.frame.buf.spec_rows(),
            self.frame.buf.wf(),
    {
        self.frame.buf.size()
    }

    /// The cells of the canvas in row-major order.
    pub fn cellvec(&self) -> (v: &Vec<Cell>)
        ensures
            v@ == self.frame.buf@,
    {
        self.frame.cellvec()
    }

    /// Overwrites every cell of the canvas with `blank`.
    pub fn clear(&mut self, blank: Cell)
        ensures
            final(self).frame.origin == old(self).frame.origin,
            final(self).frame.buf.wf(),
            final(self).frame.buf.spec_cols() == old(self).frame.buf.spec_cols(),
            final(self).frame.buf.spec_rows() == old(self).frame.buf.spec_rows(),
            final(self).frame.buf@ == Seq::new(old(self).frame.buf@.len(), |i: int| blank),
    {
        self.frame.buf.clear(blank);
    }

    /// Where the cell in column `x` and row `y` lies among the cells of
    /// the canvas in row-major order, or `None` where there is no such
    /// cell.
    pub fn pos_to_index(&self, x: usize, y: usize) -> (r: Option<usize>)
        ensures
            r == if self.frame.buf.in_bounds(x as int, y as int) {
                Some(offset_of(self.frame.buf.spec_cols() as int, x as int, y as int) as usize)
            } else {
                None::<usize>
            },
    {
        self.frame.pos_to_index(x, y)
    }

    /// The cell in column `x` and row `y`, or `None` where the canvas has
    /// no such cell.
    pub fn get(&self, x: usize, y: usize) -> (r: Option<&Cell>)
        ensures
            match r {
                Some(c) => self.frame.buf.in_bounds(x as int, y as int) && *c == self.frame.buf.at(
                    x as int,
                    y as int,
                ),
                None => !self.frame.buf.in_bounds(x as int, y as int),
            },
    {
        self.frame.buf.get(x, y)
    }

    /// A mutable reference to the cell in column `x` and row `y`, or
    /// `None` where the canvas has no such cell. Writing through the
    /// reference changes that cell and nothing else.
    pub fn get_mut(&mut self, x: usize, y: usize) -> (r: Option<&mut Cell>)
        ensures
            final(self).frame.origin == old(self).frame.origin,
            final(self).frame.buf.wf(),
            final(self).frame.buf.spec_cols() == old(self).frame.buf.spec_cols(),
            final(self).frame.buf.spec_rows() == old(self).frame.buf.spec_rows(),
            match r {
                Some(c) => {
                    &&& old(self).frame.buf.in_bounds(x as int, y as int)
                    &&& *c == old(self).frame.buf.at(x as int, y as int)
                    &&& final(self).frame.buf@ == old(self).frame.buf@.update(
                        offset_of(old(self).frame.buf.spec_cols() as int, x as int, y as int),
                        *final(c),
                    )
                },
                None => !old(self).frame.buf.in_bounds(x as int, y as int) && final(self).frame.buf@
                    == old(self).frame.buf@,
            },
    {
        self.frame.buf.get_mut(x, y)
    }

    /// The place of the canvas on the screen.
    pub fn origin(&self) -> (p: Pos)
        ensures
            p == self.frame.origin,
    {
        self.frame.origin()
    }

    /// Puts the canvas at a place on the screen.
    pub fn set_origin(&mut self, new_origin: Pos)
        ensures
            final(self).frame == (Frame { origin: new_origin, buf: old(self).frame.buf }),
    {
        self.frame.set_origin(new_origin);
    }
}

impl Widget for Canvas {
    open spec fn spec_frame(&self) -> Frame {
        self.frame
    }

    open spec fn drawable(&self) -> bool {
        true
    }

    fn draw<T: CellAccessor>(&mut self, parent: &mut T)
        ensures
            *final(self) == *old(self),
    {
        self.frame.draw_into(parent);
    }

    fn pack<P: HasSize>(
        &mut self,
        parent: &P,
        halign: HorizontalAlign,
        valign: VerticalAlign,
        margin: (usize, usize),
    ) {
        proof {
            use_type_invariant(&self.frame.buf);
        }
        self.frame.align(parent, halign, valign, margin);
    }

    fn draw_box(&mut self) {
        self.frame.buf.draw_box();
    }

    fn resize(&mut self, new_size: Size) {
        self.frame.resize(new_size);
    }

    fn frame(&self) -> (f: &Frame) {
        &self.frame
    }

    fn frame_mut(&mut self) -> (f: &mut Frame) {
        &mut self.frame
    }
}

} // verus!
