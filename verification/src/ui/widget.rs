//! What every widget can do.

use vstd::prelude::*;
use crate::cell::Cell;
use crate::position::{HasPosition, HasSize, Size};
use crate::ui::accessor::CellAccessor;
use crate::ui::alignable::{aligned_x, aligned_y};
use crate::ui::attributes::{HorizontalAlign, VerticalAlign};
use crate::ui::frame::{drawn_at, Frame};
use crate::ui::painter::boxed_at;

verus! {

/// A widget: something with a frame that can be placed in a parent and
/// drawn into it.
pub trait Widget {
    /// The frame of the widget.
    spec fn spec_frame(&self) -> Frame;

    /// Whether the widget is in a state in which it can be drawn.
    spec fn drawable(&self) -> bool;

    /// Draws the widget into `parent` at the widget's place. The parts of
    /// the widget that lie outside `parent` are left out.
    fn draw<T: CellAccessor>(&mut self, parent: &mut T)
        requires
            old(self).drawable(),
        ensures
            final(parent).grid().wf(),
            final(parent).grid().spec_cols() == old(parent).grid().spec_cols(),
            final(parent).grid().spec_rows() == old(parent).grid().spec_rows(),
            forall|tx: int, ty: int|
                old(parent).grid().in_bounds(tx, ty) ==> #[trigger] final(parent).grid().at(tx, ty)
                    == drawn_at(
                    final(self).spec_frame().cells(),
                    final(self).spec_frame().place(),
                    old(parent).grid(),
                    tx,
                    ty,
                ),
    ;

    /// Moves the widget to the place that `halign` and `valign` give it in
    /// `parent`, with the margins `(columns, rows)`.
    fn pack<P: HasSize>(
        &mut self,
        parent: &P,
        halign: HorizontalAlign,
        valign: VerticalAlign,
        margin: (usize, usize),
    )
        requires
            0 <= aligned_x(
                parent.spec_size().0 as int,
                old(self).spec_frame().cells().spec_cols() as int,
                halign,
                margin.0 as int,
            ),
            0 <= aligned_y(
                parent.spec_size().1 as int,
                old(self).spec_frame().cells().spec_rows() as int,
                valign,
                margin.1 as int,
            ),
        ensures
            final(self).spec_frame() == old(self).spec_frame().moved_to(
                (
                    aligned_x(
                        parent.spec_size().0 as int,
                        old(self).spec_frame().cells().spec_cols() as int,
                        halign,
                        margin.0 as int,
                    ) as usize,
                    aligned_y(
                        parent.spec_size().1 as int,
                        old(self).spec_frame().cells().spec_rows() as int,
                        valign,
                        margin.1 as int,
                    ) as usize,
                ),
            ),
    ;

    /// Draws a box along the border of the widget's frame, which is at
    /// least two cells wide and two cells high.
    fn draw_box(&mut self)
        requires
            old(self).spec_frame().cells().spec_cols() >= 2,
            old(self).spec_frame().cells().spec_rows() >= 2,
        ensures
            final(self).spec_frame().place() == old(self).spec_frame().place(),
            final(self).spec_frame().cells().wf(),
            final(self).spec_frame().cells().spec_cols() == old(self).spec_frame().cells().spec_cols(),
            final(self).spec_frame().cells().spec_rows() == old(self).spec_frame().cells().spec_rows(),
            forall|tx: int, ty: int|
                old(self).spec_frame().cells().in_bounds(tx, ty)
                    ==> #[trigger] final(self).spec_frame().cells().at(tx, ty) == boxed_at(
                    old(self).spec_frame().cells(),
                    old(self).spec_frame().cells().spec_cols() as int,
                    old(self).spec_frame().cells().spec_rows() as int,
                    tx,
                    ty,
                ),
    ;

    /// Gives the widget's frame a new size. Cells that both sizes have
    /// keep what they held; the others are blank with default styles.
    fn resize(&mut self, new_size: Size)
        requires
            new_size.0 * new_size.1 <= usize::MAX,
        ensures
            final(self).spec_frame().place() == old(self).spec_frame().place(),
            final(self).spec_frame().cells().wf(),
            final(self).spec_frame().cells().spec_cols() == new_size.0,
            final(self).spec_frame().cells().spec_rows() == new_size.1,
            forall|x: int, y: int|
                0 <= x < new_size.0 && 0 <= y < new_size.1
                    ==> #[trigger] final(self).spec_frame().cells().at(x, y) == old(
                    self,
                ).spec_frame().cells().resized_at(x, y, Cell::spec_default()),
    ;

    /// The frame of the widget.
    fn frame(&self) -> (f: &Frame)
        ensures
            *f == self.spec_frame(),
    ;

    /// The frame of the widget, to change it.
    fn frame_mut(&mut self) -> (f: &mut Frame)
        ensures
            *f == old(self).spec_frame(),
            final(self).spec_frame() == *final(f),
    ;
}

} // verus!
