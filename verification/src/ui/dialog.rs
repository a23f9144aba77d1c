//! The dialog: a window with a row of buttons along its bottom.

use vstd::prelude::*;
use std::collections::HashMap;
use crate::cell::Cell;
use crate::cellbuffer::CellBuffer;
use crate::position::HasPosition;
use crate::ui::alignable::{aligned_x, aligned_y, Alignable};
use crate::ui::attributes::{DialogResult, HorizontalAlign, VerticalAlign};
use crate::ui::base::Widget;
use crate::ui::button::{accel_place, button_cell, button_label, create_button, fold_case, spec_fold_case};
use crate::ui::layout::{elem_x, lemma_total_width_grows, total_width, HorizontalLayout};

verus! {

broadcast use vstd::std_specs::hash::group_hash_axioms;

/// The margin between the buttons of a dialog.
pub const BUTTON_MARGIN: usize = 2;

/// What a cell holds after the first `n` of some widgets were drawn over
/// a grid, one after the other: the cell of the last of them that lies
/// over it, or what the grid held where none does.
pub open spec fn layered_at(widgets: Seq<Widget>, n: int, target: CellBuffer, tx: int, ty: int) -> Cell
    decreases n,
{
    if n <= 0 {
        target.at(tx, ty)
    } else {
        let w = widgets[n - 1];
        if w.origin.0 <= tx < w.origin.0 + w.buf.spec_cols() && w.origin.1 <= ty < w.origin.1
            + w.buf.spec_rows() {
            w.buf.at(tx - w.origin.0, ty - w.origin.1)
        } else {
            layered_at(widgets, n - 1, target, tx, ty)
        }
    }
}

/// The width of the row that the buttons of a dialog make.
pub open spec fn row_width(buttons: Seq<Widget>) -> int {
    total_width(buttons, buttons.len() as int) + BUTTON_MARGIN * (buttons.len() - 1)
}

/// Where the row of buttons of a dialog begins: in the middle of the
/// window from left to right, one row above its bottom row.
pub open spec fn row_origin(window: Widget, buttons: Seq<Widget>) -> (int, int) {
    (
        aligned_x(
            window.buf.spec_cols() as int,
            row_width(buttons),
            HorizontalAlign::Middle,
            1,
        ),
        aligned_y(window.buf.spec_rows() as int, 1, VerticalAlign::Bottom, 1),
    )
}

/// The buttons of a dialog at their places in the row.
pub open spec fn placed(window: Widget, buttons: Seq<Widget>) -> Seq<Widget> {
    Seq::new(
        buttons.len(),
        |i: int|
            buttons[i].moved_to(
                (
                    elem_x(
                        buttons,
                        row_origin(window, buttons).0,
                        BUTTON_MARGIN as int,
                        i,
                    ) as usize,
                    row_origin(window, buttons).1 as usize,
                ),
            ),
    )
}

/// A window with buttons, each of which answers to a key and stands for a
/// result.
pub struct Dialog {
    pub window: Widget,
    pub buttons: Vec<Widget>,
    pub accel2result: HashMap<u32, DialogResult>,
}

impl Dialog {
    /// A dialog with a blank window of the given size and no button.
    pub fn new(cols: usize, rows: usize) -> (d: Dialog)
        requires
            cols * rows <= usize::MAX,
        ensures
            d.window.origin == (0usize, 0usize),
            d.window.buf.wf(),
            d.window.buf.spec_cols() == cols,
            d.window.buf.spec_rows() == rows,
            d.window.buf@ == Seq::new((cols * rows) as nat, |i: int| Cell::spec_default()),
            d.buttons@.len() == 0,
            d.accel2result@ == Map::<u32, DialogResult>::empty(),
    {
        Dialog { window: Widget::new(cols, rows), buttons: Vec::new(), accel2result: HashMap::new() }
    }

    /// The window of the dialog.
    pub fn window(&self) -> (w: &Widget)
        ensures
            *w == self.window,
    {
        &self.window
    }

    /// The window of the dialog, to draw on it.
    pub fn window_mut(&mut self) -> (w: &mut Widget)
        ensures
            *w == old(self).window,
            final(self).window == *final(w),
            final(self).buttons == old(self).buttons,
            final(self).accel2result == old(self).accel2result,
    {
        &mut self.window
    }

    /// Adds a button that shows `text` and answers to the key `accel`,
    /// upper or lower case, with `result`; a button that answered to the
    /// key before no longer does. Gives the new button back, to change
    /// it.
    pub fn add_button(&mut self, text: &str, accel: char, result: DialogResult) -> (w: &mut Widget)
        requires
            text@.len() + 4 <= usize::MAX,
        ensures
            final(self).window == old(self).window,
            final(self).accel2result@ == old(self).accel2result@.insert(
                spec_fold_case(accel) as u32,
                result,
            ),
            final(self).buttons@.len() == old(self).buttons@.len() + 1,
            forall|i: int|
                0 <= i < old(self).buttons@.len() ==> final(self).buttons@[i] == old(
                    self,
                ).buttons@[i],
            final(self).buttons@[old(self).buttons@.len() as int] == *final(w),
            w.origin == (0usize, 0usize),
            w.buf.wf(),
            w.buf.spec_cols() == text@.len() + 4,
            w.buf.spec_rows() == 1,
            forall|tx: int|
                0 <= tx < text@.len() + 4 ==> #[trigger] w.buf.at(tx, 0) == button_cell(
                    button_label(text@),
                    accel_place(text@, Some(accel)),
                    2,
                    tx,
                ),
    {
        let widget = create_button(text, Some(accel));
        self.accel2result.insert(fold_case(accel) as u32, result);
        self.buttons.push(widget);
        let n = self.buttons.len();
        &mut self.buttons[n - 1]
    }

    /// The result that the key stands for, upper or lower case, if a
    /// button answers to it.
    pub fn result_for_key(&self, key: char) -> (r: Option<DialogResult>)
        ensures
            r == if self.accel2result@.contains_key(spec_fold_case(key) as u32) {
                Some(self.accel2result@[spec_fold_case(key) as u32])
            } else {
                None::<DialogResult>
            },
    {
        let k = fold_case(key) as u32;
        match self.accel2result.get(&k) {
            Some(r) => Some(*r),
            None => None,
        }
    }

    /// Puts the buttons in a row, in the middle of the window one row
    /// above its bottom row, and draws them into the window in their
    /// order.
    pub fn draw_buttons(&mut self)
        requires
            old(self).buttons@.len() > 0,
            row_width(old(self).buttons@) <= old(self).window.buf.spec_cols(),
            old(self).window.buf.spec_rows() >= 2,
            elem_x(
                old(self).buttons@,
                row_origin(old(self).window, old(self).buttons@).0,
                BUTTON_MARGIN as int,
                old(self).buttons@.len() as int,
            ) <= usize::MAX,
        ensures
            final(self).accel2result == old(self).accel2result,
            final(self).buttons@ == placed(old(self).window, old(self).buttons@),
            final(self).window.origin == old(self).window.origin,
            final(self).window.buf.wf(),
            final(self).window.buf.spec_cols() == old(self).window.buf.spec_cols(),
            final(self).window.buf.spec_rows() == old(self).window.buf.spec_rows(),
            forall|tx: int, ty: int|
                old(self).window.buf.in_bounds(tx, ty) ==> #[trigger] final(self).window.buf.at(
                    tx,
                    ty,
                ) == layered_at(
                    final(self).buttons@,
                    final(self).buttons@.len() as int,
                    old(self).window.buf,
                    tx,
                    ty,
                ),
    {
        proof {
            use_type_invariant(&self.window.buf);
            lemma_total_width_grows(old(self).buttons@, 0, old(self).buttons@.len() as int);
        }
        let mut elems: Vec<Widget> = Vec::new();
        std::mem::swap(&mut self.buttons, &mut elems);
        let mut l = HorizontalLayout::new(elems, BUTTON_MARGIN);
        l.align(&self.window, HorizontalAlign::Middle, VerticalAlign::Bottom, (1, 1));
        l.align_elems();
        self.buttons = l.elems;
        assert(self.buttons@ =~= placed(old(self).window, old(self).buttons@));
        let n = self.buttons.len();
        let mut i: usize = 0;
        while i < n
            invariant
                n == self.buttons@.len(),
                i <= n,
                self.accel2result == old(self).accel2result,
                self.buttons@ == placed(old(self).window, old(self).buttons@),
                self.window.origin == old(self).window.origin,
                self.window.buf.wf(),
                self.window.buf.spec_cols() == old(self).window.buf.spec_cols(),
                self.window.buf.spec_rows() == old(self).window.buf.spec_rows(),
                forall|tx: int, ty: int|
                    old(self).window.buf.in_bounds(tx, ty) ==> #[trigger] self.window.buf.at(tx, ty)
                        == layered_at(self.buttons@, i as int, old(self).window.buf, tx, ty),
            decreases n - i,
        {
            let ghost before = self.window.buf;
            self.buttons[i].draw_into(&mut self.window.buf);
            assert forall|tx: int, ty: int| old(self).window.buf.in_bounds(tx, ty) implies #[trigger] self.window.buf.at(
                tx,
                ty,
            ) == layered_at(self.buttons@, i + 1, old(self).window.buf, tx, ty) by {
                assert(before.in_bounds(tx, ty));
            }
            i += 1;
        }
    }
}

} // verus!
