use std::collections::HashMap;

use rustty::border::Border;
use rustty::cell::{Attr, Cell, Color, Style};
use rustty::cellbuffer::CellBuffer;
use rustty::panel::{Draw, Panel};
use rustty::position::{HasPosition, HasSize};
use rustty::symbol;
use rustty::ui::accessor::CellAccessor;
use rustty::ui::alignable::Alignable;
use rustty::ui::attributes::{
    ButtonResult, DialogResult, HorizontalAlign, Orientation, VerticalAlign,
};
use rustty::ui::base::{Base, Widget as PlainWidget};
use rustty::ui::button::{create_button, find_accel_char_index, fold_case, Button};
use rustty::ui::canvas::Canvas;
use rustty::ui::checkbutton::{CheckButton, BALLOT, BALLOT_CHECKED};
use rustty::ui::dialog::Dialog;
use rustty::ui::frame::Frame;
use rustty::ui::hlayout::{HorizontalLayout, Layout};
use rustty::ui::label::Label;
use rustty::ui::layout::HorizontalLayout as Row;
use rustty::ui::painter::Painter;
use rustty::ui::stdbutton::StdButton;
use rustty::ui::vlayout::VerticalLayout;
use rustty::ui::widget::Widget;
use rustty::ui::wrap::{is_whitespace, len_utf8, wrap_lines};

fn rows_of(buf: &CellBuffer) -> Vec<String> {
    let (cols, rows) = buf.size();
    (0..rows).map(|y| (0..cols).map(|x| buf.get(x, y).unwrap().ch()).collect()).collect()
}

fn lines(text: &str, width: usize, margin: usize) -> Vec<String> {
    let chars: Vec<char> = text.chars().collect();
    wrap_lines(&chars, width, margin)
        .iter()
        .map(|(a, b)| chars[*a..*b].iter().collect())
        .collect()
}

#[test]
fn whitespace_and_lengths_agree_with_the_standard_library() {
    for v in 0..=0x10FFFFu32 {
        if let Some(c) = char::from_u32(v) {
            assert_eq!(is_whitespace(c), c.is_whitespace());
            assert_eq!(len_utf8(c), c.len_utf8());
        }
    }
}

#[test]
fn case_is_folded_to_the_first_lower_case_character() {
    assert_eq!(fold_case('A'), 'a');
    assert_eq!(fold_case('a'), 'a');
    assert_eq!(fold_case('É'), 'é');
    assert_eq!(fold_case('1'), '1');
    assert_eq!(fold_case('İ'), 'i');
}

#[test]
fn accelerator_is_found_whatever_its_case() {
    assert_eq!(find_accel_char_index("Quit", 'q'), Some(0));
    assert_eq!(find_accel_char_index("quit", 'Q'), Some(0));
    assert_eq!(find_accel_char_index("Foo!", 'o'), Some(1));
    assert_eq!(find_accel_char_index("Bar", 'x'), None);
    assert_eq!(find_accel_char_index("", 'x'), None);
    assert_eq!(find_accel_char_index("été", 'T'), Some(1));
}

#[test]
fn frame_draws_into_a_target_and_is_clipped() {
    let mut frame = Frame::new(2, 2);
    frame.printline(0, 0, "ab");
    frame.printline(0, 1, "cd");
    frame.set_origin((2, 1));
    assert_eq!(frame.origin(), (2, 1));
    assert_eq!(frame.size(), (2, 2));
    let mut target = CellBuffer::new(3, 3, Cell::with_char('.'));
    frame.draw_into(&mut target);
    assert_eq!(rows_of(&target), vec!["...", "..a", "..c"]);
    frame.set_origin((3, 0));
    frame.draw_into(&mut target);
    assert_eq!(rows_of(&target), vec!["...", "..a", "..c"]);
    frame.set_origin((0, 0));
    frame.draw_into(&mut target);
    assert_eq!(rows_of(&target), vec!["ab.", "cda", "..c"]);
    frame.resize((3, 1));
    assert_eq!(rows_of(&frame.buf), vec!["ab "]);
    assert_eq!(frame.pos_to_index(2, 0), Some(2));
    assert_eq!(frame.pos_to_index(0, 1), None);
    assert_eq!(frame.cellvec().len(), 3);
    frame.clear(Cell::with_char('-'));
    assert_eq!(rows_of(&frame.buf), vec!["---"]);
}

#[test]
fn printline_sets_characters_and_styles_and_stops_at_the_edge() {
    let mut buf = CellBuffer::new(5, 2, Cell::with_char('.'));
    let red = Cell::new('?', Style::with_color(Color::Red), Style::with_attr(Attr::Bold));
    buf.printline_with_cell(3, 1, "héllo", red);
    assert_eq!(rows_of(&buf), vec![".....", "...hé"]);
    assert_eq!(buf.get(4, 1).unwrap().fg(), Style::with_color(Color::Red));
    assert_eq!(buf.get(4, 1).unwrap().bg(), Style::with_attr(Attr::Bold));
    assert_eq!(buf.get(2, 1).unwrap().fg(), Style::default());
    buf.printline(0, 0, "ab");
    buf.printline(5, 0, "zz");
    buf.printline(0, 2, "zz");
    assert_eq!(rows_of(&buf), vec!["ab...", "...hé"]);
}

#[test]
fn lines_are_aligned() {
    let buf = CellBuffer::new(20, 5, Cell::default());
    assert_eq!(buf.halign_line("abcd", HorizontalAlign::Left, 2), 2);
    assert_eq!(buf.halign_line("abcd", HorizontalAlign::Right, 2), 13);
    assert_eq!(buf.halign_line("abcd", HorizontalAlign::Middle, 2), 8);
    assert_eq!(buf.valign_line("abcd", VerticalAlign::Top, 1), 1);
    assert_eq!(buf.valign_line("abcd", VerticalAlign::Bottom, 1), 3);
    assert_eq!(buf.valign_line("abcd", VerticalAlign::Middle, 1), 2);
}

#[test]
fn cells_are_repeated_in_both_directions() {
    let mut buf = CellBuffer::new(4, 3, Cell::with_char('.'));
    buf.repeat_cell(1, 0, Orientation::Horizontal, 2, Cell::with_char('-'));
    buf.repeat_cell(3, 1, Orientation::Vertical, 9, Cell::with_char('|'));
    buf.repeat_cell(2, 2, Orientation::Horizontal, 9, Cell::with_char('='));
    buf.repeat_cell(4, 0, Orientation::Horizontal, 1, Cell::with_char('x'));
    assert_eq!(rows_of(&buf), vec![".--.", "...|", "..=="]);
}

#[test]
fn box_is_drawn_along_the_border() {
    let mut buf = CellBuffer::new(4, 3, Cell::new('.', Style::with_color(Color::Red), Style::default()));
    buf.draw_box();
    assert_eq!(rows_of(&buf), vec!["┌──┐", "│..│", "└──┘"]);
    // Corners keep their styles, edges are drawn with default styles.
    assert_eq!(buf.get(0, 0).unwrap().fg(), Style::with_color(Color::Red));
    assert_eq!(buf.get(1, 0).unwrap().fg(), Style::default());
    assert_eq!(buf.get(1, 1).unwrap().fg(), Style::with_color(Color::Red));
    let mut small = CellBuffer::new(2, 2, Cell::default());
    small.draw_box();
    assert_eq!(rows_of(&small), vec!["┌┐", "└┘"]);
}

#[test]
fn widgets_are_placed_in_their_parent() {
    let parent = Frame::new(60, 10);
    let mut frame = Frame::new(10, 2);
    frame.align(&parent, HorizontalAlign::Left, VerticalAlign::Top, (3, 1));
    assert_eq!(frame.origin(), (3, 1));
    frame.align(&parent, HorizontalAlign::Right, VerticalAlign::Bottom, (3, 1));
    assert_eq!(frame.origin(), (47, 7));
    frame.align(&parent, HorizontalAlign::Middle, VerticalAlign::Middle, (3, 1));
    assert_eq!(frame.origin(), (25, 4));
    frame.halign(&parent, HorizontalAlign::Left, 0);
    assert_eq!(frame.origin(), (0, 4));
    frame.valign(&parent, VerticalAlign::Bottom, 0);
    assert_eq!(frame.origin(), (0, 8));
    let mut base = Base::new(2, 2);
    base.align(&parent, HorizontalAlign::Right, VerticalAlign::Top, (0, 0));
    assert_eq!(base.origin(), (58, 0));
    assert_eq!(base.size(), (2, 2));
}

#[test]
fn plain_widgets_hold_and_draw_cells() {
    let mut base = Base::new(2, 1);
    base.printline(0, 0, "hi");
    base.set_origin((1, 0));
    let mut widget = PlainWidget::new(4, 1);
    base.draw_into(&mut widget);
    assert_eq!(rows_of(&widget.buf), vec![" hi "]);
    widget.get_mut(0, 0).unwrap().set_ch('>');
    widget.set_cell(3, 0, Cell::with_char('<'));
    assert_eq!(widget.get(0, 0).unwrap().ch(), '>');
    assert_eq!(widget.dims(), (4, 1));
    let mut target = CellBuffer::new(4, 2, Cell::with_char('.'));
    widget.set_origin((0, 1));
    widget.draw_into(&mut target);
    assert_eq!(rows_of(&target), vec!["....", ">hi<"]);
}

#[test]
fn plain_button_shows_its_text_with_a_bold_accelerator() {
    let button = create_button("Quit", Some('u'));
    assert_eq!(rows_of(&button.buf), vec!["< Quit >"]);
    for x in 0..8 {
        let want = if x == 3 { Attr::Bold } else { Attr::Default };
        assert_eq!(button.buf.get(x, 0).unwrap().attrs(), want);
    }
    let plain = create_button("Quit", None);
    assert!((0..8).all(|x| plain.buf.get(x, 0).unwrap().attrs() == Attr::Default));
    let absent = create_button("Quit", Some('z'));
    assert!((0..8).all(|x| absent.buf.get(x, 0).unwrap().attrs() == Attr::Default));
}

#[test]
fn standard_button() {
    let mut button = StdButton::new("Foo!", 'F', ButtonResult::Custom(1));
    assert_eq!(button.accel(), 'f');
    assert_eq!(button.result(), ButtonResult::Custom(1));
    assert!(!button.state());
    button.pressed();
    assert!(!button.state());
    assert_eq!(rows_of(&button.frame().buf), vec!["< Foo! >"]);
    assert_eq!(button.frame().buf.get(2, 0).unwrap().attrs(), Attr::Bold);
    assert_eq!(button.frame().buf.get(3, 0).unwrap().attrs(), Attr::Default);
    let parent = Frame::new(20, 4);
    button.pack(&parent, HorizontalAlign::Middle, VerticalAlign::Bottom, (0, 1));
    assert_eq!(button.frame().origin(), (6, 2));
    let mut target = CellBuffer::new(20, 4, Cell::with_char('.'));
    button.draw(&mut target);
    assert_eq!(rows_of(&target)[2], "......< Foo! >......");
    button.frame_mut().set_origin((0, 0));
    assert_eq!(button.frame().origin(), (0, 0));
    button.resize((8, 3));
    button.draw_box();
    assert_eq!(rows_of(&button.frame().buf), vec!["┌──────┐", "│      │", "└──────┘"]);
}

#[test]
fn check_button_toggles() {
    let mut button = CheckButton::new("Foo", 'f', ButtonResult::Okay);
    assert_eq!(button.accel(), 'f');
    assert_eq!(button.result(), ButtonResult::Okay);
    assert!(!button.state());
    assert_eq!(rows_of(&button.frame().buf), vec![format!("{} Foo", BALLOT)]);
    assert_eq!(button.frame().buf.get(2, 0).unwrap().attrs(), Attr::Bold);
    button.pressed();
    assert!(button.state());
    assert_eq!(rows_of(&button.frame().buf), vec![format!("{} Foo", BALLOT_CHECKED)]);
    assert_eq!(button.frame().buf.get(2, 0).unwrap().attrs(), Attr::Default);
    button.pressed();
    assert!(!button.state());
    assert_eq!(rows_of(&button.frame().buf), vec![format!("{} Foo", BALLOT)]);
}

#[test]
fn canvas_gives_access_to_its_cells() {
    let mut canvas = Canvas::new(6, 2);
    assert_eq!(canvas.size(), (6, 2));
    assert_eq!(canvas.cellvec().len(), 12);
    for i in 0..12 {
        canvas.get_mut(i % 6, i / 6).unwrap().set_ch('-');
    }
    assert_eq!(canvas.get(5, 1).unwrap().ch(), '-');
    assert_eq!(canvas.get(6, 1), None);
    assert_eq!(canvas.pos_to_index(5, 1), Some(11));
    assert_eq!(canvas.pos_to_index(0, 2), None);
    canvas.clear(Cell::with_char('+'));
    assert_eq!(rows_of(&canvas.frame().buf), vec!["++++++", "++++++"]);
    assert_eq!(canvas.origin(), (0, 0));
    canvas.set_origin((1, 1));
    assert_eq!(canvas.origin(), (1, 1));
    let mut target = CellBuffer::new(4, 2, Cell::with_char('.'));
    canvas.draw(&mut target);
    assert_eq!(rows_of(&target), vec!["....", ".+++"]);
}

#[test]
fn old_layout_puts_elements_in_a_row() {
    let mut a = PlainWidget::new(3, 1);
    a.set_origin((5, 2));
    let b = PlainWidget::new(4, 1);
    let c = PlainWidget::new(2, 1);
    let mut row = Row::new(vec![a, b, c], 2);
    assert_eq!(row.origin(), (5, 2));
    assert_eq!(row.size(), (13, 1));
    row.align_elems();
    let places: Vec<(usize, usize)> = row.elems.iter().map(|e| e.origin()).collect();
    assert_eq!(places, vec![(5, 2), (10, 2), (16, 2)]);
    row.set_origin((0, 0));
    row.align_elems();
    let places: Vec<(usize, usize)> = row.elems.iter().map(|e| e.origin()).collect();
    assert_eq!(places, vec![(0, 0), (5, 0), (11, 0)]);
}

#[test]
fn dialog_draws_its_buttons_along_the_bottom() {
    let mut dialog = Dialog::new(30, 4);
    dialog.add_button("Yes", 'y', DialogResult::Okay);
    dialog.add_button("No", 'N', DialogResult::Cancel).set_origin((9, 9));
    assert_eq!(dialog.result_for_key('Y'), Some(DialogResult::Okay));
    assert_eq!(dialog.result_for_key('n'), Some(DialogResult::Cancel));
    assert_eq!(dialog.result_for_key('x'), None);
    dialog.draw_buttons();
    // The row is 7 + 2 + 6 = 15 wide, stands in the middle and one row above the bottom.
    let places: Vec<(usize, usize)> = dialog.buttons.iter().map(|b| b.origin()).collect();
    assert_eq!(places, vec![(7, 2), (16, 2)]);
    let rows = rows_of(&dialog.window().buf);
    assert_eq!(rows[2], "       < Yes >  < No >        ");
    assert_eq!(rows[3], " ".repeat(30));
    assert_eq!(dialog.window().buf.get(9, 2).unwrap().attrs(), Attr::Bold);
    dialog.window_mut().printline(0, 0, "Sure?");
    assert_eq!(rows_of(&dialog.window().buf)[0], format!("Sure?{}", " ".repeat(25)));
    dialog.add_button("Maybe", 'y', DialogResult::Custom(7));
    assert_eq!(dialog.result_for_key('y'), Some(DialogResult::Custom(7)));
}

#[test]
fn buttons_in_a_row() {
    let b1 = StdButton::new("Quit", 'q', ButtonResult::Okay);
    let b2 = StdButton::new("Foo!", 'f', ButtonResult::Custom(1));
    let b3 = StdButton::new("Bar!", 'b', ButtonResult::Custom(2));
    let mut row = HorizontalLayout::from_vec(vec![b1, b2, b3], 1);
    assert_eq!(row.frame().size(), (26, 1));
    row.align_elems();
    let places: Vec<(usize, usize)> = row.widgets.iter().map(|w| w.frame().origin()).collect();
    assert_eq!(places, vec![(0, 0), (9, 0), (18, 0)]);
    assert_eq!(rows_of(&row.frame().buf), vec!["< Quit > < Foo! > < Bar! >"]);
    let mut keys: HashMap<u32, ButtonResult> = HashMap::new();
    keys.insert('f' as u32, ButtonResult::Cancel);
    row.forward_keys(&mut keys);
    assert_eq!(keys.len(), 3);
    assert_eq!(keys[&('q' as u32)], ButtonResult::Okay);
    assert_eq!(keys[&('f' as u32)], ButtonResult::Custom(1));
    assert_eq!(keys[&('b' as u32)], ButtonResult::Custom(2));
    let parent = Frame::new(60, 10);
    row.pack(&parent, HorizontalAlign::Middle, VerticalAlign::Bottom, (0, 1));
    assert_eq!(row.frame().origin(), (17, 8));
}

#[test]
fn buttons_in_a_column() {
    let b1 = CheckButton::new("One", 'o', ButtonResult::Custom(1));
    let b2 = CheckButton::new("Three", 't', ButtonResult::Custom(3));
    let mut column = VerticalLayout::from_vec(vec![b1, b2], 1);
    assert_eq!(column.frame().size(), (7, 4));
    column.align_elems();
    let places: Vec<(usize, usize)> = column.widgets.iter().map(|w| w.frame().origin()).collect();
    assert_eq!(places, vec![(0, 0), (0, 2)]);
    assert_eq!(
        rows_of(&column.frame().buf),
        vec![
            format!("{} One  ", BALLOT),
            "       ".to_string(),
            format!("{} Three", BALLOT),
            "       ".to_string(),
        ]
    );
    let mut keys: HashMap<u32, ButtonResult> = HashMap::new();
    column.forward_keys(&mut keys);
    assert_eq!(keys[&('o' as u32)], ButtonResult::Custom(1));
    assert_eq!(keys[&('t' as u32)], ButtonResult::Custom(3));
}

#[test]
fn text_is_broken_into_lines() {
    assert_eq!(lines("Initial text", 20, 0), vec!["Initial text"]);
    assert_eq!(lines("aaa bbb ccc", 8, 0), vec!["aaa bbb", "ccc"]);
    // The line before the last word is put down as it stands, blank and all.
    assert_eq!(lines("aaa bbb ccc", 7, 0), vec!["aaa", "bbb ", "ccc"]);
    assert_eq!(lines("aaa bbb ccc", 8, 1), vec!["aaa", "bbb ", "ccc"]);
    assert_eq!(lines("word", 10, 0), vec!["word"]);
    assert_eq!(lines("word", 3, 0), vec!["", "word"]);
    assert_eq!(lines("", 10, 0), Vec::<String>::new());
    // A text that ends in blanks loses the line that was in progress.
    assert_eq!(lines("hello ", 10, 0), Vec::<String>::new());
    assert_eq!(lines("aaa bbb  ", 5, 0), vec!["aaa"]);
    // Lengths are counted in bytes.
    assert_eq!(lines("aé bé", 7, 0), vec!["aé ", "bé"]);
    assert_eq!(lines("aé bé", 8, 0), vec!["aé bé"]);
    // A word begins at a character of the ASCII range: after a gap with no
    // such character behind it, nothing more is taken.
    assert_eq!(lines("éé éé", 20, 0), Vec::<String>::new());
}

#[test]
fn label_prints_its_lines_where_they_are_aligned() {
    let mut label = Label::new(11, 4);
    label.set_text("aaa bbb ccc dd");
    assert_eq!(label.text, vec!["aaa bbb", "ccc dd"]);
    label.align_text(HorizontalAlign::Middle, VerticalAlign::Top, (0, 1));
    let mut target = CellBuffer::new(12, 5, Cell::with_char('.'));
    label.frame_mut().set_origin((1, 1));
    label.draw(&mut target);
    assert_eq!(
        rows_of(&label.frame().buf),
        vec!["           ", "  aaa bbb  ", "  ccc dd   ", "           "]
    );
    assert_eq!(
        rows_of(&target),
        vec!["............", ".           ", ".  aaa bbb  ", ".  ccc dd   ", ".           "]
    );
    assert_eq!((label.x, label.y), (2, 1));
    let one = Label::from_str("This is a label");
    assert_eq!(one.frame().size(), (15, 1));
    assert_eq!(one.text, vec!["This is a label"]);
    let wide = Label::from_str("é");
    assert_eq!(wide.frame().size(), (2, 1));
}

#[test]
fn characters_and_text_are_drawn_on_panels() {
    let mut panel = Panel::with_size(4, 2, Cell::new('.', Style::with_color(Color::Red), Style::default()));
    'x'.draw(1, 1, &mut panel);
    'y'.draw(4, 0, &mut panel);
    assert_eq!(panel.get(1, 1), Some(&Cell::new('x', Style::with_color(Color::Red), Style::default())));
    "abcde".draw(2, 0, &mut panel);
    let got: Vec<String> =
        (0..2).map(|y| (0..4).map(|x| panel.get(x, y).unwrap().ch()).collect()).collect();
    assert_eq!(got, vec!["..ab", "cde."]);
    "zzzz".draw(2, 1, &mut panel);
    assert_eq!(panel.get(3, 1).unwrap().ch(), 'z');
    "q".draw(0, 2, &mut panel);
    let mut small = Panel::with_size(2, 2, Cell::with_char('#'));
    small.get_mut(0, 0).unwrap().set_ch('1');
    small.draw(3, 1, &mut panel);
    small.draw(4, 0, &mut panel);
    let got: Vec<String> =
        (0..2).map(|y| (0..4).map(|x| panel.get(x, y).unwrap().ch()).collect()).collect();
    assert_eq!(got, vec!["..ab", "cdz1"]);
    assert_eq!(HasSize::size(&panel), (4, 2));
}

#[test]
fn border_is_drawn_on_a_panel() {
    let border = Border::default();
    assert_eq!(border.tl, symbol::BOX_H_DN_RT);
    let mut panel = Panel::with_size(4, 3, Cell::with_char('.'));
    border.draw(0, 0, &mut panel);
    let got: Vec<String> =
        (0..3).map(|y| (0..4).map(|x| panel.get(x, y).unwrap().ch()).collect()).collect();
    assert_eq!(got, vec!["┏━━┓", "┃..┃", "┗━━┛"]);
    let ascii = Border { tl: '1', tr: '2', bl: '3', br: '4', h_edge: '-', v_edge: '|' };
    let mut panel = Panel::with_size(5, 4, Cell::with_char('.'));
    ascii.draw(0, 1, &mut panel);
    let got: Vec<String> =
        (0..4).map(|y| (0..5).map(|x| panel.get(x, y).unwrap().ch()).collect()).collect();
    assert_eq!(got, vec![".....", "1---2", "|...|", "3---4"]);
    let mut one = Panel::with_size(1, 1, Cell::with_char('.'));
    ascii.draw(0, 0, &mut one);
    assert_eq!(one.get(0, 0).unwrap().ch(), '3');
    // Away from the left margin the vertical edges are counted off along
    // the width of the panel, not of the box.
    let mut panel = Panel::with_size(5, 4, Cell::with_char('.'));
    ascii.draw(1, 0, &mut panel);
    let got: Vec<String> =
        (0..4).map(|y| (0..5).map(|x| panel.get(x, y).unwrap().ch()).collect()).collect();
    assert_eq!(got, vec![".1--2", ".|..|", "..|..", ".3--4"]);
}
