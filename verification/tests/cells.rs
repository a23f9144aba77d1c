use rustty::cell::{Attr, Cell, Color, Style};

#[test]
fn cell_new_holds_what_it_was_given() {
    let cell = Cell::new('x', Style::default(), Style::with_color(Color::Green));
    assert_eq!(cell.ch(), 'x');
    assert_eq!(cell.fg(), Style::default());
    assert_eq!(cell.bg(), Style::with_color(Color::Green));
}

#[test]
fn cell_with_char_has_default_styles() {
    let cell = Cell::with_char('x');
    assert_eq!(cell.ch(), 'x');
    assert_eq!(cell.fg(), Style::default());
    assert_eq!(cell.bg(), Style::default());
    assert_eq!(Cell::char_default('x'), cell);
}

#[test]
fn cell_with_styles_is_blank() {
    let cell = Cell::with_styles(Style::default(), Style::with_color(Color::Red));
    assert_eq!(cell.fg(), Style::default());
    assert_eq!(cell.bg(), Style::with_color(Color::Red));
    assert_eq!(cell.ch(), ' ');
    assert_eq!(Cell::blank(Style::default(), Style::with_color(Color::Red)), cell);
}

#[test]
fn cell_default_is_blank_with_default_styles() {
    let cell = Cell::default();
    assert_eq!(cell.ch(), ' ');
    assert_eq!(cell.fg(), Style::default());
    assert_eq!(cell.bg(), Style::default());
    assert_eq!(Cell::blank_default(), cell);
}

#[test]
fn cell_setters_chain() {
    let mut cell = Cell::with_char('x');
    cell.set_ch('y').set_fg(Style::with_attr(Attr::Underline)).set_bg(Style::with_color(Color::Blue));
    assert_eq!(cell.ch(), 'y');
    assert_eq!(cell.fg(), Style::with_attr(Attr::Underline));
    assert_eq!(cell.bg(), Style::with_color(Color::Blue));
}

#[test]
fn cell_style_references_write_through() {
    let mut cell = Cell::default();
    assert_eq!(cell.fg_mut(), &mut Style::default());
    assert_eq!(cell.bg_mut(), &mut Style::default());
    cell.fg_mut().set_color(Color::Cyan);
    cell.bg_mut().set_attr(Attr::Reverse);
    assert_eq!(cell.fg(), Style::with_color(Color::Cyan));
    assert_eq!(cell.bg(), Style::with_attr(Attr::Reverse));
}

#[test]
fn cell_attrs_live_in_the_foreground_style() {
    let mut cell = Cell::new('a', Style::with_color(Color::Red), Style::default());
    assert_eq!(cell.attrs(), Attr::Default);
    cell.set_attrs(Attr::Bold);
    assert_eq!(cell.attrs(), Attr::Bold);
    assert_eq!(cell.fg(), Style::new(Color::Red, Attr::Bold));
    assert_eq!(cell.bg(), Style::default());
}

#[test]
fn style_builders_and_setters() {
    let mut style = Style::new(Color::Green, Attr::BoldUnderline);
    assert_eq!(style.color(), Color::Green);
    assert_eq!(style.attr(), Attr::BoldUnderline);
    assert_eq!(Style::with_color(Color::Cyan).attr(), Attr::Default);
    assert_eq!(Style::with_attr(Attr::UnderlineReverse).color(), Color::Default);
    style.set_color(Color::Black).set_attr(Attr::Underline);
    assert_eq!(style, Style::new(Color::Black, Attr::Underline));
    assert_eq!(Style::default(), Style::new(Color::Default, Attr::Default));
}

#[test]
fn basic_colors_are_palette_bytes() {
    assert_eq!(Color::Black.as_byte(), 0);
    assert_eq!(Color::Red.as_byte(), 1);
    assert_eq!(Color::Green.as_byte(), 2);
    assert_eq!(Color::Yellow.as_byte(), 3);
    assert_eq!(Color::Blue.as_byte(), 4);
    assert_eq!(Color::Magenta.as_byte(), 5);
    assert_eq!(Color::Cyan.as_byte(), 6);
    assert_eq!(Color::White.as_byte(), 7);
    assert_eq!(Color::Byte(0x01).as_byte(), Color::Red.as_byte());
    assert_eq!(Color::Byte(200).as_byte(), 200);
}

#[test]
fn attr_sets() {
    assert_eq!(Attr::bold(), Attr::Bold);
    assert_eq!(Attr::underline(), Attr::Underline);
    assert_eq!(Attr::reverse(), Attr::Reverse);
    assert_eq!(Attr::empty(), Attr::Default);
    assert_eq!(Attr::default(), Attr::Default);
    assert_eq!(Attr::bold().union(Attr::reverse()), Attr::BoldReverse);
    assert_eq!(Attr::BoldUnderline.union(Attr::Reverse), Attr::BoldReverseUnderline);
    assert!(Attr::BoldReverseUnderline.contains(Attr::UnderlineReverse));
    assert!(!Attr::Bold.contains(Attr::Underline));
    assert!(Attr::Bold.contains(Attr::Default));
    assert_eq!(Attr::UnderlineReverse.bits(), 0b110);
    assert_eq!(Attr::from_flags(true, false, true), Attr::BoldReverse);
    assert!(Attr::BoldReverse.is_bold());
    assert!(!Attr::BoldReverse.is_underline());
    assert!(Attr::BoldReverse.is_reverse());
}
