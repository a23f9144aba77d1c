//! The standard button: a text between angle brackets.

use vstd::prelude::*;
use vstd::string::*;
use crate::cell::{Attr, Cell, Style};
use crate::position::{HasSize, Size};
use crate::ui::accessor::CellAccessor;
use crate::ui::alignable::Alignable;
use crate::ui::attributes::{ButtonResult, HorizontalAlign, VerticalAlign};
use crate::ui::button::{
    button_cell, button_label, find_accel_char_index, fold_case, spec_find_accel, spec_fold_case,
    Button,
};
use crate::ui::frame::Frame;
use crate::ui::painter::Painter;
use crate::ui::widget::Widget;

verus! {

/// A button that shows its text between angle brackets, with the
/// accelerator character in bold.
#[derive(Debug)]
pub struct StdButton {
    pub frame: Frame,
    pub accel: char,
    pub result: ButtonResult,
    pub text: String,
}

impl StdButton {
    /// A button that shows `text`, answers to the key `accel`, upper or
    /// lower case, and means `result`.
    pub fn new(text: &str, accel: char, result: ButtonResult) -> (button: StdButton)
        requires
            text@.len() + 4 <= usize::MAX,
        ensures
            button.accel == spec_fold_case(accel),
            button.result == result,
            button.text@ == button_label(text@),
            button.frame.origin == (0usize, 0usize),
            button.frame.buf.wf(),
            button.frame.buf.spec_cols() == text@.len() + 4,
            button.frame.buf.spec_rows() == 1,
            forall|tx: int|
                0 <= tx < text@.len() + 4 ==> #[trigger] button.frame.buf.at(tx, 0) == button_cell(
                    button_label(text@),
                    spec_find_accel(text@, spec_fold_case(accel), 0),
                    2,
                    tx,
                ),
    {
        let mut s = String::from_str("< ");
        s.append(text);
        s.append(" >");
        proof {
            reveal_strlit("< ");
            reveal_strlit(" >");
            assert(s@ =~= button_label(text@));
        }
        let width = s.as_str().unicode_len();
        let mut button = StdButton {
            frame: Frame::new(width, 1),
            accel: fold_case(accel),
            result,
            text: s,
        };
        button.frame.buf.printline(0, 0, button.text.as_str());
        match find_accel_char_index(text, button.accel) {
            Some(i) => {
                let cell = *button.frame.buf.index(i + 2, 0);
                button.frame.buf.set_cell(
                    i + 2,
                    0,
                    Cell::new(cell.ch(), Style::new(cell.fg().color(), Attr::Bold), cell.bg()),
                );
            },
            None => (),
        }
        button
    }
}

impl Button for StdButton {
    open spec fn spec_accel(&self) -> char {
        self.accel
    }

    open spec fn spec_result(&self) -> ButtonResult {
        self.result
    }

    open spec fn spec_state(&self) -> bool {
        false
    }

    fn accel(&self) -> (c: char) {
        self.accel
    }

    fn result(&self) -> (r: ButtonResult) {
        self.result
    }

    fn pressed(&mut self)
        ensures
            *final(self) == *old(self),
    {
    }

    fn state(&self) -> (b: bool) {
        false
    }
}

impl Widget for StdButton {
    open spec fn spec_frame(&self) -> Frame {
        self.frame
    }

    open spec fn drawable(&self) -> bool {
        true
    }

    fn draw<T: CellAccessor>(&mut self, parent: &mut T)
        ensures
            *final(self) == *old(self),
    {
        self.frame.draw_into(parent);
    }

    fn pack<P: HasSize>(
        &mut self,
        parent: &P,
        halign: HorizontalAlign,
        valign: VerticalAlign,
        margin: (usize, usize),
    ) {
        proof {
            use_type_invariant(&self.frame.buf);
        }
        self.frame.align(parent, halign, valign, margin);
    }

    fn draw_box(&mut self) {
        self.frame.buf.draw_box();
    }

    fn resize(&mut self, new_size: Size) {
        self.frame.resize(new_size);
    }

    fn frame(&self) -> (f: &Frame) {
        &self.frame
    }

    fn frame_mut(&mut self) -> (f: &mut Frame) {
        &mut self.frame
    }
}

} // verus!
