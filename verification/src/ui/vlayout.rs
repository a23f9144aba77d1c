//! A column of buttons, one below the other.

use vstd::prelude::*;
use std::collections::HashMap;
use crate::cell::Cell;
use crate::position::{HasPosition, HasSize, Pos, Size};
use crate::ui::accessor::CellAccessor;
use crate::ui::alignable::Alignable;
use crate::ui::attributes::{ButtonResult, HorizontalAlign, VerticalAlign};
use crate::ui::button::Button;
use crate::ui::frame::Frame;
use crate::ui::hlayout::{draw_frames, forward_all, frames_layered_at, keys_forwarded, Layout};
use crate::ui::painter::Painter;
use crate::ui::widget::Widget;

verus! {

/// The width of the widest frame among the first `n` of some widgets.
pub open spec fn widest<B: Button>(widgets: Seq<B>, n: int) -> int
    decreases n,
{
    if n <= 0 {
        0
    } else {
        let w = widgets[n - 1].spec_frame().buf.spec_cols() as int;
        if w > widest(widgets, n - 1) {
            w
        } else {
            widest(widgets, n - 1)
        }
    }
}

/// The row in which the widget at index `i` of a column stands: each
/// widget takes one row and the margin below it.
pub open spec fn widget_y(y: int, margin: int, i: int) -> int {
    y + i * (1 + margin)
}

/// Buttons in a column, with a margin between them.
pub struct VerticalLayout<B: Button> {
    pub frame: Frame,
    pub inner_margin: usize,
    pub origin: Pos,
    pub widgets: Vec<B>,
}

impl<B: Button> VerticalLayout<B> {
    /// A column of the given buttons, of which there is at least one, with
    /// `inner_margin` rows between them. The column begins where the
    /// frame of its first button stands; its own frame is blank, as wide
    /// as the widest frame of the buttons, and has a row and a margin for
    /// each button.
    pub fn from_vec(widgets: Vec<B>, inner_margin: usize) -> (l: VerticalLayout<B>)
        requires
            widgets@.len() > 0,
            widgets@.len() + widgets@.len() * inner_margin <= usize::MAX,
            widest(widgets@, widgets@.len() as int) * (widgets@.len() + widgets@.len()
                * inner_margin) <= usize::MAX,
        ensures
            l.widgets == widgets,
            l.inner_margin == inner_margin,
            l.origin == widgets@[0].spec_frame().origin,
            l.frame.origin == (0usize, 0usize),
            l.frame.buf.wf(),
            l.frame.buf.spec_cols() == widest(widgets@, widgets@.len() as int),
            l.frame.buf.spec_rows() == widgets@.len() + widgets@.len() * inner_margin,
            l.frame.buf@ == Seq::new(
                l.frame.buf.spec_cols() * l.frame.buf.spec_rows(),
                |i: int| Cell::spec_default(),
            ),
    {
        let first_origin = widgets[0].frame().origin();
        let n = widgets.len();
        assert(0 <= n * inner_margin) by (nonlinear_arith)
            requires
                0 <= n,
                0 <= inner_margin,
        ;
        let height = n + n * inner_margin;
        let mut width: usize = 0;
        let mut i: usize = 0;
        while i < n
            invariant
                n == widgets@.len(),
                i <= n,
                width == widest(widgets@, i as int),
            decreases n - i,
        {
            let w = widgets[i].frame().buf.cols();
            if w > width {
                width = w;
            }
            i += 1;
        }
        let frame = Frame::new(width, height);
        assert(frame.buf@ =~= Seq::new(
            frame.buf.spec_cols() * frame.buf.spec_rows(),
            |i: int| Cell::spec_default(),
        ));
        VerticalLayout { frame, inner_margin, origin: first_origin, widgets }
    }
}

impl<B: Button> Widget for VerticalLayout<B> {
    open spec fn spec_frame(&self) -> Frame {
        self.frame
    }

    open spec fn drawable(&self) -> bool {
        true
    }

    fn draw<T: CellAccessor>(&mut self, parent: &mut T)
        ensures
            *final(self) == *old(self),
    {
        self.frame.draw_into(parent);
    }

    fn pack<P: HasSize>(
        &mut self,
        parent: &P,
        halign: HorizontalAlign,
        valign: VerticalAlign,
        margin: (usize, usize),
    ) {
        proof {
            use_type_invariant(&self.frame.buf);
        }
        self.frame.align(parent, halign, valign, margin);
    }

    fn draw_box(&mut self) {
        self.frame.buf.draw_box();
    }

    fn resize(&mut self, new_size: Size) {
        self.frame.resize(new_size);
    }

    fn frame(&self) -> (f: &Frame) {
        &self.frame
    }

    fn frame_mut(&mut self) -> (f: &mut Frame) {
        &mut self.frame
    }
}

impl<B: Button> Layout for VerticalLayout<B> {
    /// The row after the last button and its margin fits the machine.
    open spec fn can_align(&self) -> bool {
        widget_y(self.origin.1 as int, self.inner_margin as int, self.widgets@.len() as int)
            <= usize::MAX
    }

    /// The frame of each button stands in the column of the layout, in
    /// the row after the frame before it and the margin, and the frames
    /// are drawn into the frame of the layout in their order.
    open spec fn aligned(&self, after: &Self) -> bool {
        &&& after.origin == self.origin
        &&& after.inner_margin == self.inner_margin
        &&& after.frame.origin == self.frame.origin
        &&& after.frame.buf.wf()
        &&& after.frame.buf.spec_cols() == self.frame.buf.spec_cols()
        &&& after.frame.buf.spec_rows() == self.frame.buf.spec_rows()
        &&& after.widgets@.len() == self.widgets@.len()
        &&& forall|i: int|
            0 <= i < self.widgets@.len() ==> (#[trigger] after.widgets@[i]).spec_frame()
                == self.widgets@[i].spec_frame().moved_to(
                (
                    self.origin.0,
                    widget_y(self.origin.1 as int, self.inner_margin as int, i) as usize,
                ),
            )
        &&& forall|tx: int, ty: int|
            self.frame.buf.in_bounds(tx, ty) ==> #[trigger] after.frame.buf.at(tx, ty)
                == frames_layered_at(
                after.widgets@,
                after.widgets@.len() as int,
                self.frame.buf,
                tx,
                ty,
            )
    }

    open spec fn forwarded(&self, map: Map<u32, ButtonResult>) -> Map<u32, ButtonResult> {
        keys_forwarded(self.widgets@, self.widgets@.len() as int, map)
    }

    fn align_elems(&mut self) {
        let (x, y) = self.origin;
        let margin = self.inner_margin;
        let n = self.widgets.len();
        let mut current_y = y;
        let mut i: usize = 0;
        while i < n
            invariant
                n == self.widgets@.len(),
                n == old(self).widgets@.len(),
                i <= n,
                self.origin == old(self).origin,
                self.inner_margin == old(self).inner_margin,
                self.frame == old(self).frame,
                (x, y) == old(self).origin,
                margin == old(self).inner_margin,
                current_y == widget_y(y as int, margin as int, i as int),
                widget_y(y as int, margin as int, n as int) <= usize::MAX,
                forall|k: int| i <= k < n ==> self.widgets@[k] == old(self).widgets@[k],
                forall|k: int|
                    0 <= k < i ==> (#[trigger] self.widgets@[k]).spec_frame() == old(
                        self,
                    ).widgets@[k].spec_frame().moved_to(
                        (x, widget_y(y as int, margin as int, k) as usize),
                    ),
            decreases n - i,
        {
            proof {
                assert((i + 1) * (1 + margin) <= n * (1 + margin)) by (nonlinear_arith)
                    requires
                        0 <= margin,
                        i + 1 <= n,
                ;
                assert((i + 1) * (1 + margin) == i * (1 + margin) + 1 + margin)
                    by (nonlinear_arith);
                assert(0 <= i * (1 + margin)) by (nonlinear_arith)
                    requires
                        0 <= i,
                        0 <= margin,
                ;
            }
            let widget = &mut self.widgets[i];
            widget.frame_mut().set_origin((x, current_y));
            current_y += 1 + margin;
            i += 1;
        }
        draw_frames(&self.widgets, &mut self.frame.buf);
    }

    fn forward_keys(&mut self, key_map: &mut HashMap<u32, ButtonResult>)
        ensures
            *final(self) == *old(self),
    {
        forward_all(&self.widgets, key_map);
    }
}

} // verus!
