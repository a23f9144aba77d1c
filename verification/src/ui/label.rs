//! The label: a widget that shows text.

use vstd::prelude::*;
use vstd::string::*;
use crate::cell::Cell;
use crate::cellbuffer::CellBuffer;
use crate::position::{HasSize, Size};
use crate::text::chars_of;
use crate::ui::accessor::CellAccessor;
use crate::ui::alignable::Alignable;
use crate::ui::attributes::{HorizontalAlign, VerticalAlign};
use crate::ui::frame::Frame;
use crate::ui::painter::{halign_column, valign_row, Painter};
use crate::ui::widget::Widget;
use crate::ui::wrap::{blanks_only, bytes_len, wrap, wrap_lines};

verus! {

/// The column at which line `i` of a label begins.
pub open spec fn line_x(l: &Label, i: int) -> int {
    halign_column(
        l.frame.buf.spec_cols() as int,
        l.text@[i]@.len() as int,
        l.t_halign,
        l.t_margin.0 as int,
    )
}

/// The row in which line `i` of a label stands: the row that the
/// alignment gives, and one row further down for each line before it.
pub open spec fn line_y(l: &Label, i: int) -> int {
    valign_row(l.frame.buf.spec_rows() as int, l.t_valign, l.t_margin.1 as int) + i
}

/// What a cell of the frame of a label holds after the first `n` lines of
/// its text were printed, one after the other, with default styles.
pub open spec fn lines_printed_at(l: &Label, n: int, before: CellBuffer, tx: int, ty: int) -> Cell
    decreases n,
{
    if n <= 0 {
        before.at(tx, ty)
    } else {
        let line = l.text@[n - 1]@;
        let x = line_x(l, n - 1);
        if ty == line_y(l, n - 1) && x <= tx < x + line.len() {
            Cell { ch: line[tx - x], ..Cell::spec_default() }
        } else {
            lines_printed_at(l, n - 1, before, tx, ty)
        }
    }
}

/// A widget that shows lines of text, aligned within its frame.
#[derive(Debug)]
pub struct Label {
    pub frame: Frame,
    pub text: Vec<String>,
    /// The column at which the line that was printed last begins.
    pub x: usize,
    /// The row of the first line, as it was when text was printed last.
    pub y: usize,
    pub t_halign: HorizontalAlign,
    pub t_valign: VerticalAlign,
    pub t_margin: (usize, usize),
}

impl Label {
    /// A label `cols` wide and `rows` high, without text; text will be
    /// aligned to the left and in the middle from top to bottom.
    pub fn new(cols: usize, rows: usize) -> (l: Label)
        requires
            cols * rows <= usize::MAX,
        ensures
            l.frame.origin == (0usize, 0usize),
            l.frame.buf.wf(),
            l.frame.buf.spec_cols() == cols,
            l.frame.buf.spec_rows() == rows,
            l.frame.buf@ == Seq::new((cols * rows) as nat, |i: int| Cell::spec_default()),
            l.text@.len() == 0,
            l.x == 0,
            l.y == 0,
            l.t_halign == HorizontalAlign::Left,
            l.t_valign == VerticalAlign::Middle,
            l.t_margin == (0usize, 0usize),
    {
        Label {
            frame: Frame::new(cols, rows),
            text: Vec::new(),
            x: 0,
            y: 0,
            t_halign: HorizontalAlign::Left,
            t_valign: VerticalAlign::Middle,
            t_margin: (0, 0),
        }
    }

    /// A label that holds the one line `s` and is one row high and as
    /// many columns wide as `s` has bytes.
    pub fn from_str(s: &str) -> (l: Label)
        ensures
            l.frame.origin == (0usize, 0usize),
            l.frame.buf.wf(),
            l.frame.buf.spec_cols() == s.spec_bytes().len(),
            l.frame.buf.spec_rows() == 1,
            l.frame.buf@ == Seq::new(s.spec_bytes().len(), |i: int| Cell::spec_default()),
            l.text@.len() == 1,
            l.text@[0]@ == s@,
            l.x == 0,
            l.y == 0,
            l.t_halign == HorizontalAlign::Left,
            l.t_valign == VerticalAlign::Middle,
            l.t_margin == (0usize, 0usize),
    {
        let mut text: Vec<String> = Vec::new();
        text.push(s.to_owned());
        let width = s.as_bytes().len();
        assert(width * 1 == width) by (nonlinear_arith);
        let frame = Frame::new(width, 1);
        assert(frame.buf@ =~= Seq::new(s.spec_bytes().len(), |i: int| Cell::spec_default()));
        Label {
            frame,
            text,
            x: 0,
            y: 0,
            t_halign: HorizontalAlign::Left,
            t_valign: VerticalAlign::Middle,
            t_margin: (0, 0),
        }
    }

    /// Sets how the text is aligned within the label, and the margins
    /// `(columns, rows)` that are kept free.
    pub fn align_text(&mut self, halign: HorizontalAlign, valign: VerticalAlign, margin: (
        usize,
        usize,
    ))
        ensures
            final(self).frame == old(self).frame,
            final(self).text == old(self).text,
            final(self).x == old(self).x,
            final(self).y == old(self).y,
            final(self).t_halign == halign,
            final(self).t_valign == valign,
            final(self).t_margin == margin,
    {
        self.t_halign = halign;
        self.t_valign = valign;
        self.t_margin = margin;
    }

    /// Gives the label a new text, broken into lines that fit the width
    /// of its frame with the margin kept free. The text holds no tabs
    /// and no line breaks.
    pub fn set_text(&mut self, new_str: &str)
        requires
            blanks_only(new_str@),
            bytes_len(new_str@, 0, new_str@.len() as int) + old(self).t_margin.0 <= usize::MAX,
        ensures
            final(self).frame == old(self).frame,
            final(self).x == old(self).x,
            final(self).y == old(self).y,
            final(self).t_halign == old(self).t_halign,
            final(self).t_valign == old(self).t_valign,
            final(self).t_margin == old(self).t_margin,
            final(self).text@.len() == wrap(
                new_str@,
                old(self).frame.buf.spec_cols() as int,
                old(self).t_margin.0 as int,
                0,
                0,
                Seq::empty(),
            ).len(),
            forall|i: int|
                0 <= i < final(self).text@.len() ==> (#[trigger] final(self).text@[i])@ == ({
                    let line = wrap(
                        new_str@,
                        old(self).frame.buf.spec_cols() as int,
                        old(self).t_margin.0 as int,
                        0,
                        0,
                        Seq::empty(),
                    )[i];
                    new_str@.subrange(line.0, line.1)
                }),
    {
        let framex = self.frame.buf.cols();
        let chars = chars_of(new_str);
        let lines = wrap_lines(&chars, framex, self.t_margin.0);
        let ghost goal = wrap(new_str@, framex as int, self.t_margin.0 as int, 0, 0, Seq::empty());
        let mut text: Vec<String> = Vec::new();
        let mut i: usize = 0;
        while i < lines.len()
            invariant
                chars@ == new_str@,
                i <= lines@.len(),
                lines@.len() == goal.len(),
                forall|k: int|
                    0 <= k < lines@.len() ==> (#[trigger] lines@[k]).0 <= lines@[k].1
                        <= new_str@.len() && (lines@[k].0 as int, lines@[k].1 as int) == goal[k],
                text@.len() == i,
                forall|k: int|
                    0 <= k < i ==> (#[trigger] text@[k])@ == new_str@.subrange(goal[k].0, goal[k].1),
            decreases lines.len() - i,
        {
            let (a, b) = lines[i];
            text.push(new_str.substring_char(a, b).to_owned());
            i += 1;
        }
        self.text = text;
    }
}

impl Widget for Label {
    open spec fn spec_frame(&self) -> Frame {
        self.frame
    }

    /// Every line of the text has a place within the frame: the
    /// alignment gives it a column and a row that are not negative.
    open spec fn drawable(&self) -> bool {
        forall|i: int|
            0 <= i < self.text@.len() ==> 0 <= #[trigger] line_x(self, i) && 0 <= line_y(self, 0)
                && line_y(self, i) <= usize::MAX
    }

    /// Prints the lines of the text into the frame of the label, each at
    /// the place that the alignment gives it, and draws the frame into
    /// `parent`.
    fn draw<T: CellAccessor>(&mut self, parent: &mut T)
        ensures
            final(self).text == old(self).text,
            final(self).t_halign == old(self).t_halign,
            final(self).t_valign == old(self).t_valign,
            final(self).t_margin == old(self).t_margin,
            final(self).frame.origin == old(self).frame.origin,
            final(self).frame.buf.wf(),
            final(self).frame.buf.spec_cols() == old(self).frame.buf.spec_cols(),
            final(self).frame.buf.spec_rows() == old(self).frame.buf.spec_rows(),
            forall|tx: int, ty: int|
                old(self).frame.buf.in_bounds(tx, ty) ==> #[trigger] final(self).frame.buf.at(tx, ty)
                    == lines_printed_at(
                    old(self),
                    old(self).text@.len() as int,
                    old(self).frame.buf,
                    tx,
                    ty,
                ),
            old(self).text@.len() > 0 ==> final(self).x == line_x(
                old(self),
                old(self).text@.len() - 1,
            ) && final(self).y == line_y(old(self), 0),
            old(self).text@.len() == 0 ==> final(self).x == old(self).x && final(self).y == old(
                self,
            ).y,
    {
        proof {
            use_type_invariant(&self.frame.buf);
        }
        let n = self.text.len();
        let mut i: usize = 0;
        while i < n
            invariant
                n == self.text@.len(),
                i <= n,
                old(self).drawable(),
                self.text == old(self).text,
                self.t_halign == old(self).t_halign,
                self.t_valign == old(self).t_valign,
                self.t_margin == old(self).t_margin,
                self.frame.origin == old(self).frame.origin,
                self.frame.buf.wf(),
                old(self).frame.buf.wf(),
                self.frame.buf.spec_cols() == old(self).frame.buf.spec_cols(),
                self.frame.buf.spec_rows() == old(self).frame.buf.spec_rows(),
                forall|tx: int, ty: int|
                    old(self).frame.buf.in_bounds(tx, ty) ==> #[trigger] self.frame.buf.at(tx, ty)
                        == lines_printed_at(old(self), i as int, old(self).frame.buf, tx, ty),
                i > 0 ==> self.x == line_x(old(self), i - 1) && self.y == line_y(old(self), 0),
                i == 0 ==> self.x == old(self).x && self.y == old(self).y,
            decreases n - i,
        {
            assert(0 <= line_x(old(self), i as int));
            let x = self.frame.buf.halign_line(self.text[i].as_str(), self.t_halign, self.t_margin.0);
            let y = self.frame.buf.valign_line(self.text[i].as_str(), self.t_valign, self.t_margin.1);
            self.x = x;
            self.y = y;
            let ghost before = self.frame.buf;
            self.frame.buf.printline(x, y + i, self.text[i].as_str());
            assert forall|tx: int, ty: int| old(self).frame.buf.in_bounds(tx, ty) implies #[trigger] self.frame.buf.at(
                tx,
                ty,
            ) == lines_printed_at(old(self), i + 1, old(self).frame.buf, tx, ty) by {
                assert(before.in_bounds(tx, ty));
            }
            i += 1;
        }
        self.frame.draw_into(parent);
    }

    fn pack<P: HasSize>(
        &mut self,
        parent: &P,
        halign: HorizontalAlign,
        valign: VerticalAlign,
        margin: (usize, usize),
    ) {
        proof {
            use_type_invariant(&self.frame.buf);
        }
        self.frame.align(parent, halign, valign, margin);
    }

    fn draw_box(&mut self) {
        self.frame.buf.draw_box();
    }

    fn resize(&mut self, new_size: Size) {
        self.frame.resize(new_size);
    }

    fn frame(&self) -> (f: &Frame) {
        &self.frame
    }

    fn frame_mut(&mut self) -> (f: &mut Frame) {
        &mut self.frame
    }
}

} // verus!
