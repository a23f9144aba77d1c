//! Buttons: widgets that answer to a key.

use vstd::prelude::*;
use vstd::string::*;
use crate::cell::{Attr, Cell, Color, Style};
use crate::ui::attributes::ButtonResult;
use crate::ui::base::Widget as Plain;
use crate::ui::painter::Painter;
use crate::text::chars_of;
use crate::ui::widget::Widget;

verus! {

/// The characters that a character turns into when it is made lower case,
/// as `char::to_lowercase` gives them.
pub uninterp spec fn lowercase(c: char) -> Seq<char>;

/// Calls `char::to_lowercase` and gathers the characters it gives, which
/// this library only names.
#[verifier::external_body]
fn to_lowercase(c: char) -> (r: Vec<char>)
    ensures
        r@ == lowercase(c),
{
    c.to_lowercase().collect()
}

/// The character that stands for `c` where upper and lower case are not
/// to be told apart: the first of the lower-case characters of `c`, or `c`
/// itself where there is none.
pub open spec fn spec_fold_case(c: char) -> char {
    if lowercase(c).len() > 0 {
        lowercase(c)[0]
    } else {
        c
    }
}

/// The character that stands for `c` where upper and lower case are not
/// to be told apart.
pub fn fold_case(c: char) -> (r: char)
    ensures
        r == spec_fold_case(c),
{
    let lower = to_lowercase(c);
    if lower.len() > 0 {
        lower[0]
    } else {
        c
    }
}

/// Where the accelerator character first stands in a text, upper and
/// lower case taken as one: the least index whose character stands for
/// the same as `accel`.
pub open spec fn spec_find_accel(s: Seq<char>, accel: char, from: int) -> Option<int>
    decreases s.len() - from,
{
    if from < 0 || from >= s.len() {
        None
    } else if spec_fold_case(s[from]) == spec_fold_case(accel) {
        Some(from)
    } else {
        spec_find_accel(s, accel, from + 1)
    }
}

/// Finds where the accelerator character first stands in a text, upper
/// and lower case taken as one.
pub fn find_accel_char_index(s: &str, accel: char) -> (r: Option<usize>)
    ensures
        match r {
            Some(i) => spec_find_accel(s@, accel, 0) == Some(i as int) && i < s@.len(),
            None => spec_find_accel(s@, accel, 0) is None,
        },
{
    let lower_accel = fold_case(accel);
    let chars = chars_of(s);
    let mut i: usize = 0;
    while i < chars.len()
        invariant
            chars@ == s@,
            i <= chars@.len(),
            lower_accel == spec_fold_case(accel),
            spec_find_accel(s@, accel, 0) == spec_find_accel(s@, accel, i as int),
        decreases chars.len() - i,
    {
        if fold_case(chars[i]) == lower_accel {
            return Some(i);
        }
        i += 1;
    }
    None
}

/// What a plain button shows for a text: the text between `< ` and ` >`.
pub open spec fn button_label(text: Seq<char>) -> Seq<char> {
    seq!['<', ' '] + text + seq![' ', '>']
}

/// The cell of a button at column `tx`: the character of the label there,
/// bold where the accelerator character stands in the text, which begins
/// at column `offset`, and with default styles otherwise.
pub open spec fn button_cell(label: Seq<char>, accel_at: Option<int>, offset: int, tx: int) -> Cell {
    Cell {
        ch: label[tx],
        fg: Style(
            Color::Default,
            if accel_at == Some(tx - offset) {
                Attr::Bold
            } else {
                Attr::Default
            },
        ),
        bg: Style::spec_default(),
    }
}

/// Where the accelerator of a plain button stands in its text, if the
/// button has one.
pub open spec fn accel_place(text: Seq<char>, accel: Option<char>) -> Option<int> {
    match accel {
        Some(c) => spec_find_accel(text, c, 0),
        None => None,
    }
}

/// Makes a plain button: a widget one row high that shows `text` between
/// angle brackets, with the accelerator character, if there is one and
/// it stands in the text, in bold.
pub fn create_button(text: &str, accel: Option<char>) -> (widget: Plain)
    requires
        text@.len() + 4 <= usize::MAX,
    ensures
        widget.origin == (0usize, 0usize),
        widget.buf.wf(),
        widget.buf.spec_cols() == text@.len() + 4,
        widget.buf.spec_rows() == 1,
        forall|tx: int|
            0 <= tx < text@.len() + 4 ==> #[trigger] widget.buf.at(tx, 0) == button_cell(
                button_label(text@),
                accel_place(text@, accel),
                2,
                tx,
            ),
{
    let mut s = String::from_str("< ");
    s.append(text);
    s.append(" >");
    proof {
        reveal_strlit("< ");
        reveal_strlit(" >");
        assert(s@ =~= button_label(text@));
    }
    let width = s.as_str().unicode_len();
    let mut widget = Plain::new(width, 1);
    widget.buf.printline(0, 0, s.as_str());
    match accel {
        Some(c) => {
            match find_accel_char_index(text, c) {
                Some(i) => {
                    let cell = *widget.buf.index(i + 2, 0);
                    widget.buf.set_cell(
                        i + 2,
                        0,
                        Cell::new(cell.ch(), Style::new(cell.fg().color(), Attr::Bold), cell.bg()),
                    );
                },
                None => (),
            }
        },
        None => (),
    }
    widget
}

/// A widget that answers to a key.
pub trait Button: Widget {
    /// The key that the button answers to.
    spec fn spec_accel(&self) -> char;

    /// What pressing the button means.
    spec fn spec_result(&self) -> ButtonResult;

    /// Whether the button is switched on.
    spec fn spec_state(&self) -> bool;

    /// The key that the button answers to.
    fn accel(&self) -> (c: char)
        ensures
            c == self.spec_accel(),
    ;

    /// What pressing the button means.
    fn result(&self) -> (r: ButtonResult)
        ensures
            r == self.spec_result(),
    ;

    /// Takes note that the button was pressed.
    fn pressed(&mut self)
        ensures
            final(self).spec_accel() == old(self).spec_accel(),
            final(self).spec_result() == old(self).spec_result(),
    ;

    /// Whether the button is switched on.
    fn state(&self) -> (b: bool)
        ensures
            b == self.spec_state(),
    ;
}

} // verus!
