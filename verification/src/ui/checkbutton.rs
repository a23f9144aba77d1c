//! The check button: a ballot box before a text.

use vstd::prelude::*;
use vstd::string::*;
use crate::cell::{Attr, Cell, Style};
use crate::position::{HasSize, Size};
use crate::ui::accessor::CellAccessor;
use crate::ui::alignable::Alignable;
use crate::ui::attributes::{ButtonResult, HorizontalAlign, VerticalAlign};
use crate::ui::button::{
    button_cell, find_accel_char_index, fold_case, spec_find_accel, spec_fold_case, Button,
};
use crate::ui::frame::Frame;
use crate::ui::painter::Painter;
use crate::ui::widget::Widget;

verus! {

/// The empty ballot box.
pub const BALLOT: char = '\u{2610}';

/// The ballot box with a check.
pub const BALLOT_CHECKED: char = '\u{2611}';

/// What a check button shows for a text: the ballot box, a blank, and the
/// text.
pub open spec fn check_label(check: char, text: Seq<char>) -> Seq<char> {
    seq![check, ' '] + text
}

/// A button that holds a state, on or off, and shows it as a ballot box
/// before its text.
#[derive(Debug)]
pub struct CheckButton {
    pub frame: Frame,
    pub accel: char,
    pub result: ButtonResult,
    pub text: String,
    pub check: char,
}

impl CheckButton {
    /// A check button that shows `text`, answers to the key `accel`, upper
    /// or lower case, and means `result`. It is switched off, and the
    /// accelerator character is bold.
    pub fn new(text: &str, accel: char, result: ButtonResult) -> (button: CheckButton)
        requires
            text@.len() + 2 <= usize::MAX,
        ensures
            button.accel == spec_fold_case(accel),
            button.result == result,
            button.text@ == text@,
            button.check == BALLOT,
            button.frame.origin == (0usize, 0usize),
            button.frame.buf.wf(),
            button.frame.buf.spec_cols() == text@.len() + 2,
            button.frame.buf.spec_rows() == 1,
            forall|tx: int|
                0 <= tx < text@.len() + 2 ==> #[trigger] button.frame.buf.at(tx, 0) == button_cell(
                    check_label(BALLOT, text@),
                    spec_find_accel(text@, spec_fold_case(accel), 0),
                    2,
                    tx,
                ),
    {
        let width = text.unicode_len() + 2;
        let mut button = CheckButton {
            frame: Frame::new(width, 1),
            accel: fold_case(accel),
            result,
            text: text.to_owned(),
            check: BALLOT,
        };
        button.frame.buf.set_cell(0, 0, Cell::with_char(BALLOT));
        button.frame.buf.set_cell(1, 0, Cell::with_char(' '));
        button.frame.buf.printline(2, 0, text);
        match find_accel_char_index(text, button.accel) {
            Some(i) => {
                let cell = *button.frame.buf.index(i + 2, 0);
                button.frame.buf.set_cell(
                    i + 2,
                    0,
                    Cell::new(cell.ch(), Style::new(cell.fg().color(), Attr::Bold), cell.bg()),
                );
            },
            None => (),
        }
        button
    }
}

impl Button for CheckButton {
    open spec fn spec_accel(&self) -> char {
        self.accel
    }

    open spec fn spec_result(&self) -> ButtonResult {
        self.result
    }

    open spec fn spec_state(&self) -> bool {
        self.check == BALLOT_CHECKED
    }

    fn accel(&self) -> (c: char) {
        self.accel
    }

    fn result(&self) -> (r: ButtonResult) {
        self.result
    }

    /// Switches the button from off to on or from on to off, and shows
    /// the new state: the label is printed anew, with default styles.
    fn pressed(&mut self)
        ensures
            final(self).text == old(self).text,
            final(self).check == if old(self).check == BALLOT {
                BALLOT_CHECKED
            } else {
                BALLOT
            },
            final(self).frame.origin == old(self).frame.origin,
            final(self).frame.buf.wf(),
            final(self).frame.buf.spec_cols() == old(self).frame.buf.spec_cols(),
            final(self).frame.buf.spec_rows() == old(self).frame.buf.spec_rows(),
            forall|tx: int, ty: int|
                old(self).frame.buf.in_bounds(tx, ty) ==> #[trigger] final(self).frame.buf.at(tx, ty)
                    == crate::ui::painter::printed_at(
                    check_label(final(self).check, old(self).text@),
                    0,
                    0,
                    Cell::spec_default(),
                    old(self).frame.buf,
                    tx,
                    ty,
                ),
    {
        self.check = if self.check == BALLOT {
            BALLOT_CHECKED
        } else {
            BALLOT
        };
        self.frame.buf.set_cell(0, 0, Cell::with_char(self.check));
        self.frame.buf.set_cell(1, 0, Cell::with_char(' '));
        self.frame.buf.printline(2, 0, self.text.as_str());
    }

    fn state(&self) -> (b: bool) {
        self.check == BALLOT_CHECKED
    }
}

impl Widget for CheckButton {
    open spec fn spec_frame(&self) -> Frame {
        self.frame
    }

    open spec fn drawable(&self) -> bool {
        true
    }

    fn draw<T: CellAccessor>(&mut self, parent: &mut T)
        ensures
            *final(self) == *old(self),
    {
        self.frame.draw_into(parent);
    }

    fn pack<P: HasSize>(
        &mut self,
        parent: &P,
        halign: HorizontalAlign,
        valign: VerticalAlign,
        margin: (usize, usize),
    ) {
        proof {
            use_type_invariant(&self.frame.buf);
        }
        self.frame.align(parent, halign, valign, margin);
    }

    fn draw_box(&mut self) {
        self.frame.buf.draw_box();
    }

    fn resize(&mut self, new_size: Size) {
        self.frame.resize(new_size);
    }

    fn frame(&self) -> (f: &Frame) {
        &self.frame
    }

    fn frame_mut(&mut self) -> (f: &mut Frame) {
        &mut self.frame
    }
}

} // verus!
