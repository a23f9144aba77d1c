//! A row of buttons, one after the other from left to right.

use vstd::prelude::*;
use std::collections::HashMap;
use crate::cell::Cell;
use crate::cellbuffer::CellBuffer;
use crate::position::{HasPosition, HasSize, Pos, Size};
use crate::ui::accessor::CellAccessor;
use crate::ui::alignable::Alignable;
use crate::ui::attributes::{ButtonResult, HorizontalAlign, VerticalAlign};
use crate::ui::button::Button;
use crate::ui::frame::Frame;
use crate::ui::painter::Painter;
use crate::ui::widget::Widget;

verus! {

broadcast use vstd::std_specs::hash::group_hash_axioms;

/// The widths of the frames of the first `n` of some widgets, added up.
pub open spec fn frames_width<B: Button>(widgets: Seq<B>, n: int) -> int
    decreases n,
{
    if n <= 0 {
        0
    } else {
        frames_width(widgets, n - 1) + widgets[n - 1].spec_frame().buf.spec_cols()
    }
}

/// The widths of frames never add up to less than nothing, and adding
/// more never makes less.
pub proof fn lemma_frames_width_grows<B: Button>(widgets: Seq<B>, m: int, n: int)
    requires
        0 <= m <= n,
    ensures
        0 <= frames_width(widgets, m) <= frames_width(widgets, n),
    decreases n,
{
    if n > 0 {
        if m < n {
            lemma_frames_width_grows(widgets, m, n - 1);
        } else {
            lemma_frames_width_grows(widgets, m - 1, n - 1);
        }
    }
}

/// The column at which the widget at index `i` of a row begins.
pub open spec fn widget_x<B: Button>(widgets: Seq<B>, x: int, margin: int, i: int) -> int {
    x + frames_width(widgets, i) + margin * i
}

/// What a cell holds after the frames of the first `n` of some widgets
/// were drawn over a grid, one after the other: the cell of the last of
/// them that lies over it, or what the grid held where none does.
pub open spec fn frames_layered_at<B: Button>(
    widgets: Seq<B>,
    n: int,
    target: CellBuffer,
    tx: int,
    ty: int,
) -> Cell
    decreases n,
{
    if n <= 0 {
        target.at(tx, ty)
    } else {
        let f = widgets[n - 1].spec_frame();
        if f.origin.0 <= tx < f.origin.0 + f.buf.spec_cols() && f.origin.1 <= ty < f.origin.1
            + f.buf.spec_rows() {
            f.buf.at(tx - f.origin.0, ty - f.origin.1)
        } else {
            frames_layered_at(widgets, n - 1, target, tx, ty)
        }
    }
}

/// The keys of the first `n` of some buttons put into a map with what the
/// buttons mean; of two buttons with one key the later one stays.
pub open spec fn keys_forwarded<B: Button>(
    widgets: Seq<B>,
    n: int,
    map: Map<u32, ButtonResult>,
) -> Map<u32, ButtonResult>
    decreases n,
{
    if n <= 0 {
        map
    } else {
        keys_forwarded(widgets, n - 1, map).insert(
            widgets[n - 1].spec_accel() as u32,
            widgets[n - 1].spec_result(),
        )
    }
}

/// Draws the frames of some widgets into a grid, one after the other.
pub fn draw_frames<B: Button>(widgets: &Vec<B>, target: &mut CellBuffer)
    ensures
        final(target).wf(),
        final(target).spec_cols() == old(target).spec_cols(),
        final(target).spec_rows() == old(target).spec_rows(),
        forall|tx: int, ty: int|
            old(target).in_bounds(tx, ty) ==> #[trigger] final(target).at(tx, ty)
                == frames_layered_at(widgets@, widgets@.len() as int, *old(target), tx, ty),
{
    let n = widgets.len();
    let mut i: usize = 0;
    proof {
        use_type_invariant(&*target);
    }
    while i < n
        invariant
            n == widgets@.len(),
            i <= n,
            target.wf(),
            target.spec_cols() == old(target).spec_cols(),
            target.spec_rows() == old(target).spec_rows(),
            forall|tx: int, ty: int|
                old(target).in_bounds(tx, ty) ==> #[trigger] target.at(tx, ty) == frames_layered_at(
                    widgets@,
                    i as int,
                    *old(target),
                    tx,
                    ty,
                ),
        decreases n - i,
    {
        let ghost before = *target;
        widgets[i].frame().draw_into(target);
        assert forall|tx: int, ty: int| old(target).in_bounds(tx, ty) implies #[trigger] target.at(
            tx,
            ty,
        ) == frames_layered_at(widgets@, i + 1, *old(target), tx, ty) by {
            assert(before.in_bounds(tx, ty));
        }
        i += 1;
    }
}

/// Puts the keys of some buttons into a map with what the buttons mean.
pub fn forward_all<B: Button>(widgets: &Vec<B>, map: &mut HashMap<u32, ButtonResult>)
    ensures
        final(map)@ == keys_forwarded(widgets@, widgets@.len() as int, old(map)@),
{
    let n = widgets.len();
    let mut i: usize = 0;
    while i < n
        invariant
            n == widgets@.len(),
            i <= n,
            map@ == keys_forwarded(widgets@, i as int, old(map)@),
        decreases n - i,
    {
        map.insert(widgets[i].accel() as u32, widgets[i].result());
        i += 1;
    }
}

/// A widget that holds other widgets and arranges them.
pub trait Layout: Widget {
    /// Whether the widgets can be arranged: their places fit the machine.
    spec fn can_align(&self) -> bool;

    /// Whether `after` is what arranging makes of `self`.
    spec fn aligned(&self, after: &Self) -> bool;

    /// The keys of the widgets put into a map with what they mean.
    spec fn forwarded(&self, map: Map<u32, ButtonResult>) -> Map<u32, ButtonResult>;

    /// Arranges the widgets and draws them into the frame of the layout.
    fn align_elems(&mut self)
        requires
            old(self).can_align(),
        ensures
            old(self).aligned(final(self)),
    ;

    /// Puts the key of each widget into `key_map` with what the widget
    /// means.
    fn forward_keys(&mut self, key_map: &mut HashMap<u32, ButtonResult>)
        ensures
            final(key_map)@ == old(self).forwarded(old(key_map)@),
    ;
}

/// Buttons in a row, with a margin between them.
pub struct HorizontalLayout<B: Button> {
    pub frame: Frame,
    pub inner_margin: usize,
    pub origin: Pos,
    pub widgets: Vec<B>,
}

impl<B: Button> HorizontalLayout<B> {
    /// A row of the given buttons, of which there is at least one, with
    /// `inner_margin` columns between them. The row begins where the
    /// frame of its first button stands; its own frame is blank, one row
    /// high, and as wide as the frames of the buttons and the margins
    /// between them.
    pub fn from_vec(widgets: Vec<B>, inner_margin: usize) -> (l: HorizontalLayout<B>)
        requires
            widgets@.len() > 0,
            frames_width(widgets@, widgets@.len() as int) + inner_margin * (widgets@.len() - 1)
                <= usize::MAX,
        ensures
            l.widgets == widgets,
            l.inner_margin == inner_margin,
            l.origin == widgets@[0].spec_frame().origin,
            l.frame.origin == (0usize, 0usize),
            l.frame.buf.wf(),
            l.frame.buf.spec_cols() == frames_width(widgets@, widgets@.len() as int) + inner_margin
                * (widgets@.len() - 1),
            l.frame.buf.spec_rows() == 1,
            l.frame.buf@ == Seq::new(l.frame.buf.spec_cols(), |i: int| Cell::spec_default()),
    {
        let first_origin = widgets[0].frame().origin();
        let n = widgets.len();
        let mut total_width: usize = 0;
        let mut i: usize = 0;
        proof {
            assert(0 <= inner_margin * (n - 1)) by (nonlinear_arith)
                requires
                    0 <= inner_margin,
                    0 <= n - 1,
            ;
        }
        while i < n
            invariant
                n == widgets@.len(),
                i <= n,
                total_width == frames_width(widgets@, i as int),
                frames_width(widgets@, n as int) <= usize::MAX,
            decreases n - i,
        {
            proof {
                lemma_frames_width_grows(widgets@, i as int + 1, n as int);
            }
            total_width = total_width + widgets[i].frame().buf.cols();
            i += 1;
        }
        let width = total_width + inner_margin * (n - 1);
        let frame = Frame::new(width, 1);
        assert(frame.buf@ =~= Seq::new(frame.buf.spec_cols(), |i: int| Cell::spec_default()));
        HorizontalLayout { frame, inner_margin, origin: first_origin, widgets }
    }
}

impl<B: Button> Widget for HorizontalLayout<B> {
    open spec fn spec_frame(&self) -> Frame {
        self.frame
    }

    open spec fn drawable(&self) -> bool {
        true
    }

    fn draw<T: CellAccessor>(&mut self, parent: &mut T)
        ensures
            *final(self) == *old(self),
    {
        self.frame.draw_into(parent);
    }

    fn pack<P: HasSize>(
        &mut self,
        parent: &P,
        halign: HorizontalAlign,
        valign: VerticalAlign,
        margin: (usize, usize),
    ) {
        proof {
            use_type_invariant(&self.frame.buf);
        }
        self.frame.align(parent, halign, valign, margin);
    }

    fn draw_box(&mut self) {
        self.frame.buf.draw_box();
    }

    fn resize(&mut self, new_size: Size) {
        self.frame.resize(new_size);
    }

    fn frame(&self) -> (f: &Frame) {
        &self.frame
    }

    fn frame_mut(&mut self) -> (f: &mut Frame) {
        &mut self.frame
    }
}

impl<B: Button> Layout for HorizontalLayout<B> {
    /// The place after the last button and its margin fits the machine.
    open spec fn can_align(&self) -> bool {
        widget_x(
            self.widgets@,
            self.origin.0 as int,
            self.inner_margin as int,
            self.widgets@.len() as int,
        ) <= usize::MAX
    }

    /// The frame of each button stands in the row of the layout, in the
    /// column after the frame before it and the margin, and the frames
    /// are drawn into the frame of the layout in their order.
    open spec fn aligned(&self, after: &Self) -> bool {
        &&& after.origin == self.origin
        &&& after.inner_margin == self.inner_margin
        &&& after.frame.origin == self.frame.origin
        &&& after.frame.buf.wf()
        &&& after.frame.buf.spec_cols() == self.frame.buf.spec_cols()
        &&& after.frame.buf.spec_rows() == self.frame.buf.spec_rows()
        &&& after.widgets@.len() == self.widgets@.len()
        &&& forall|i: int|
            0 <= i < self.widgets@.len() ==> (#[trigger] after.widgets@[i]).spec_frame()
                == self.widgets@[i].spec_frame().moved_to(
                (
                    widget_x(self.widgets@, self.origin.0 as int, self.inner_margin as int, i) as usize,
                    self.origin.1,
                ),
            )
        &&& forall|tx: int, ty: int|
            self.frame.buf.in_bounds(tx, ty) ==> #[trigger] after.frame.buf.at(tx, ty)
                == frames_layered_at(
                after.widgets@,
                after.widgets@.len() as int,
                self.frame.buf,
                tx,
                ty,
            )
    }

    open spec fn forwarded(&self, map: Map<u32, ButtonResult>) -> Map<u32, ButtonResult> {
        keys_forwarded(self.widgets@, self.widgets@.len() as int, map)
    }

    fn align_elems(&mut self) {
        let (x, y) = self.origin;
        let margin = self.inner_margin;
        let n = self.widgets.len();
        let mut current_x = x;
        let mut i: usize = 0;
        while i < n
            invariant
                n == self.widgets@.len(),
                n == old(self).widgets@.len(),
                i <= n,
                self.origin == old(self).origin,
                self.inner_margin == old(self).inner_margin,
                self.frame == old(self).frame,
                (x, y) == old(self).origin,
                margin == old(self).inner_margin,
                current_x == widget_x(old(self).widgets@, x as int, margin as int, i as int),
                widget_x(old(self).widgets@, x as int, margin as int, n as int) <= usize::MAX,
                forall|k: int| i <= k < n ==> self.widgets@[k] == old(self).widgets@[k],
                forall|k: int|
                    0 <= k < i ==> (#[trigger] self.widgets@[k]).spec_frame() == old(
                        self,
                    ).widgets@[k].spec_frame().moved_to(
                        (widget_x(old(self).widgets@, x as int, margin as int, k) as usize, y),
                    ),
            decreases n - i,
        {
            proof {
                lemma_frames_width_grows(old(self).widgets@, i as int + 1, n as int);
                lemma_frames_width_grows(old(self).widgets@, 0, i as int);
                assert(margin * (i + 1) <= margin * n) by (nonlinear_arith)
                    requires
                        0 <= margin,
                        i + 1 <= n,
                ;
                assert(margin * (i + 1) == margin * i + margin) by (nonlinear_arith);
            }
            let widget = &mut self.widgets[i];
            widget.frame_mut().set_origin((current_x, y));
            let width = widget.frame().buf.cols();
            current_x += width + margin;
            i += 1;
        }
        draw_frames(&self.widgets, &mut self.frame.buf);
    }

    fn forward_keys(&mut self, key_map: &mut HashMap<u32, ButtonResult>)
        ensures
            *final(self) == *old(self),
    {
        forward_all(&self.widgets, key_map);
    }
}

} // verus!
