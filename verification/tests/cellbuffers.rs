use rustty::cell::{Cell, Color, Style};
use rustty::cellbuffer::CellBuffer;
use rustty::panel::Panel;

#[test]
fn new_buffer_holds_the_blank_everywhere_and_nothing_outside() {
    let blank = Cell::with_styles(Style::default(), Style::with_color(Color::Blue));
    let buf = CellBuffer::new(4, 3, blank);
    assert_eq!(buf.cols(), 4);
    assert_eq!(buf.rows(), 3);
    assert_eq!(buf.size(), (4, 3));
    for y in 0..3 {
        for x in 0..4 {
            assert_eq!(buf.get(x, y), Some(&blank));
        }
    }
    assert_eq!(buf.get(4, 0), None);
    assert_eq!(buf.get(0, 3), None);
    assert_eq!(buf.get(4, 3), None);
    assert_eq!(buf.get(usize::MAX, usize::MAX), None);
}

#[test]
fn empty_buffer_has_no_cell() {
    let buf = CellBuffer::default();
    assert_eq!(buf.size(), (0, 0));
    assert_eq!(buf.get(0, 0), None);
    let wide = CellBuffer::new(5, 0, Cell::default());
    assert_eq!(wide.get(0, 0), None);
}

#[test]
fn get_mut_changes_one_cell() {
    let mut buf = CellBuffer::new(3, 2, Cell::default());
    buf.get_mut(1, 1).unwrap().set_ch('q');
    assert!(buf.get_mut(3, 0).is_none());
    for y in 0..2 {
        for x in 0..3 {
            let want = if (x, y) == (1, 1) { 'q' } else { ' ' };
            assert_eq!(buf.get(x, y).unwrap().ch(), want);
        }
    }
    assert_eq!(buf.index(1, 1).ch(), 'q');
    *buf.index_mut(2, 0) = Cell::with_char('z');
    assert_eq!(buf.index(2, 0).ch(), 'z');
}

#[test]
fn clear_overwrites_every_cell() {
    let mut buf = CellBuffer::new(3, 2, Cell::with_char('a'));
    buf.get_mut(0, 0).unwrap().set_ch('b');
    let blank = Cell::with_char('.');
    buf.clear(blank);
    assert_eq!(buf.size(), (3, 2));
    for y in 0..2 {
        for x in 0..3 {
            assert_eq!(buf.get(x, y), Some(&blank));
        }
    }
}

#[test]
fn resize_to_the_same_size_changes_nothing() {
    let mut buf = CellBuffer::new(3, 3, Cell::default());
    buf.get_mut(2, 1).unwrap().set_ch('k');
    let before = buf.clone();
    buf.resize(3, 3, Cell::with_char('#'));
    assert_eq!(buf, before);
}

#[test]
fn resize_shrink_then_grow_keeps_the_overlap() {
    let mut buf = CellBuffer::new(5, 5, Cell::default());
    for y in 0..5 {
        for x in 0..5 {
            let ch = char::from(b'a' + (y * 5 + x) as u8);
            buf.get_mut(x, y).unwrap().set_ch(ch);
        }
    }
    let blank = Cell::with_char('#');
    buf.resize(3, 3, blank);
    assert_eq!(buf.size(), (3, 3));
    assert_eq!(buf.get(3, 0), None);
    buf.resize(5, 5, blank);
    assert_eq!(buf.size(), (5, 5));
    for y in 0..5 {
        for x in 0..5 {
            if x < 3 && y < 3 {
                let ch = char::from(b'a' + (y * 5 + x) as u8);
                assert_eq!(buf.get(x, y).unwrap().ch(), ch);
            } else {
                assert_eq!(buf.get(x, y), Some(&blank));
            }
        }
    }
}

#[test]
fn resize_grows_columns_and_shrinks_rows_at_once() {
    let mut buf = CellBuffer::new(2, 3, Cell::with_char('o'));
    buf.get_mut(1, 0).unwrap().set_ch('x');
    buf.resize(4, 1, Cell::with_char('.'));
    let row: Vec<char> = (0..4).map(|x| buf.get(x, 0).unwrap().ch()).collect();
    assert_eq!(row, vec!['o', 'x', '.', '.']);
    assert_eq!(buf.get(0, 1), None);
    let copy = buf.resized(1, 2, Cell::with_char('-'));
    assert_eq!(copy.get(0, 0).unwrap().ch(), 'o');
    assert_eq!(copy.get(0, 1).unwrap().ch(), '-');
    assert_eq!(buf.size(), (4, 1));
}

#[test]
fn copy_from_takes_every_cell() {
    let mut a = CellBuffer::new(2, 2, Cell::default());
    let mut b = CellBuffer::new(2, 2, Cell::with_char('b'));
    b.get_mut(1, 0).unwrap().set_ch('c');
    a.copy_from(&b);
    assert_eq!(a, b);
}

#[test]
fn panel_addresses_cells_by_column_and_row() {
    let mut panel = Panel::with_size(3, 2, Cell::default());
    assert_eq!(panel.cols(), 3);
    assert_eq!(panel.rows(), 2);
    assert_eq!(panel.size(), (3, 2));
    assert_eq!(panel.offset(2, 1), 5);
    panel.get_mut(2, 1).unwrap().set_ch('p');
    assert_eq!(panel.get(2, 1).unwrap().ch(), 'p');
    assert_eq!(panel.get(3, 1), None);
    panel.resize(4, 3, Cell::with_char('+'));
    assert_eq!(panel.get(2, 1).unwrap().ch(), 'p');
    assert_eq!(panel.get(3, 2).unwrap().ch(), '+');
    panel.clear(Cell::with_char('-'));
    assert_eq!(panel.get(2, 1).unwrap().ch(), '-');
    let empty = Panel::new();
    assert_eq!(empty.size(), (0, 0));
    assert_eq!(empty.get(0, 0), None);
}
