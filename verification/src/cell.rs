//! Cells, styles, colours and attributes.

use vstd::prelude::*;

verus! {

/// The colour of one side (foreground or background) of a cell.
///
/// `Color::Default` is the terminal's own default colour. The eight basic
/// colours are the bytes `0..=7` of the 8-bit palette; `Color::Byte` names
/// any entry of that palette.
#[derive(Debug, Copy, Clone, PartialEq, Eq, Hash, Structural)]
pub enum Color {
    Black,
    Red,
    Green,
    Yellow,
    Blue,
    Magenta,
    Cyan,
    White,
    Byte(u8),
    Default,
}

impl Color {
    /// The palette index of a colour. `Color::Default` has none; it is
    /// mapped to `0` only so that the function is total.
    pub open spec fn spec_as_byte(self) -> u8 {
        match self {
            Color::Black => 0x00,
            Color::Red => 0x01,
            Color::Green => 0x02,
            Color::Yellow => 0x03,
            Color::Blue => 0x04,
            Color::Magenta => 0x05,
            Color::Cyan => 0x06,
            Color::White => 0x07,
            Color::Byte(b) => b,
            Color::Default => 0x00,
        }
    }

    /// Returns the palette index of the colour.
    ///
    /// The default colour has no index, so it is not accepted.
    pub fn as_byte(&self) -> (b: u8)
        requires
            *self != Color::Default,
        ensures
            b == self.spec_as_byte(),
    {
        match *self {
            Color::Black => 0x00,
            Color::Red => 0x01,
            Color::Green => 0x02,
            Color::Yellow => 0x03,
            Color::Blue => 0x04,
            Color::Magenta => 0x05,
            Color::Cyan => 0x06,
            Color::White => 0x07,
            Color::Byte(b) => b,
            Color::Default => 0x00,
        }
    }
}

/// The attributes of a style: a set over bold, underline and reverse.
///
/// Every combination has a variant of its own; `Attr::Default` is the empty
/// set.
#[derive(Debug, Copy, Clone, PartialEq, Eq, Hash, Structural)]
pub enum Attr {
    Default,
    Bold,
    Underline,
    BoldUnderline,
    Reverse,
    BoldReverse,
    UnderlineReverse,
    BoldReverseUnderline,
}

impl Attr {
    /// Whether the set holds bold.
    pub open spec fn has_bold(self) -> bool {
        self == Attr::Bold || self == Attr::BoldUnderline || self == Attr::BoldReverse || self
            == Attr::BoldReverseUnderline
    }

    /// Whether the set holds underline.
    pub open spec fn has_underline(self) -> bool {
        self == Attr::Underline || self == Attr::BoldUnderline || self == Attr::UnderlineReverse
            || self == Attr::BoldReverseUnderline
    }

    /// Whether the set holds reverse.
    pub open spec fn has_reverse(self) -> bool {
        self == Attr::Reverse || self == Attr::BoldReverse || self == Attr::UnderlineReverse
            || self == Attr::BoldReverseUnderline
    }

    /// The set as a bit pattern: bold is `0b001`, underline `0b010`,
    /// reverse `0b100`.
    pub open spec fn spec_bits(self) -> u8 {
        match self {
            Attr::Default => 0,
            Attr::Bold => 1,
            Attr::Underline => 2,
            Attr::BoldUnderline => 3,
            Attr::Reverse => 4,
            Attr::BoldReverse => 5,
            Attr::UnderlineReverse => 6,
            Attr::BoldReverseUnderline => 7,
        }
    }

    /// The set with exactly the members asked for.
    pub open spec fn spec_from_flags(bold: bool, underline: bool, reverse: bool) -> Attr {
        if bold {
            if underline {
                if reverse {
                    Attr::BoldReverseUnderline
                } else {
                    Attr::BoldUnderline
                }
            } else {
                if reverse {
                    Attr::BoldReverse
                } else {
                    Attr::Bold
                }
            }
        } else {
            if underline {
                if reverse {
                    Attr::UnderlineReverse
                } else {
                    Attr::Underline
                }
            } else {
                if reverse {
                    Attr::Reverse
                } else {
                    Attr::Default
                }
            }
        }
    }

    /// Whether every member of `other` is a member of `self`.
    pub open spec fn spec_contains(self, other: Attr) -> bool {
        &&& other.has_bold() ==> self.has_bold()
        &&& other.has_underline() ==> self.has_underline()
        &&& other.has_reverse() ==> self.has_reverse()
    }

    /// The set that holds the members of both.
    pub open spec fn spec_union(self, other: Attr) -> Attr {
        Attr::spec_from_flags(
            self.has_bold() || other.has_bold(),
            self.has_underline() || other.has_underline(),
            self.has_reverse() || other.has_reverse(),
        )
    }

    /// The empty set.
    pub fn empty() -> (a: Attr)
        ensures
            a == Attr::Default,
    {
        Attr::Default
    }

    /// The set that holds bold alone.
    pub fn bold() -> (a: Attr)
        ensures
            a == Attr::Bold,
    {
        Attr::Bold
    }

    /// The set that holds underline alone.
    pub fn underline() -> (a: Attr)
        ensures
            a == Attr::Underline,
    {
        Attr::Underline
    }

    /// The set that holds reverse alone.
    pub fn reverse() -> (a: Attr)
        ensures
            a == Attr::Reverse,
    {
        Attr::Reverse
    }

    /// Builds the set from its three membership flags.
    pub fn from_flags(bold: bool, underline: bool, reverse: bool) -> (a: Attr)
        ensures
            a == Attr::spec_from_flags(bold, underline, reverse),
            a.has_bold() == bold,
            a.has_underline() == underline,
            a.has_reverse() == reverse,
    {
        if bold {
            if underline {
                if reverse {
                    Attr::BoldReverseUnderline
                } else {
                    Attr::BoldUnderline
                }
            } else {
                if reverse {
                    Attr::BoldReverse
                } else {
                    Attr::Bold
                }
            }
        } else {
            if underline {
                if reverse {
                    Attr::UnderlineReverse
                } else {
                    Attr::Underline
                }
            } else {
                if reverse {
                    Attr::Reverse
                } else {
                    Attr::Default
                }
            }
        }
    }

    /// Whether the set holds bold.
    pub fn is_bold(&self) -> (b: bool)
        ensures
            b == self.has_bold(),
    {
        match *self {
            Attr::Bold | Attr::BoldUnderline | Attr::BoldReverse | Attr::BoldReverseUnderline => true,
            _ => false,
        }
    }

    /// Whether the set holds underline.
    pub fn is_underline(&self) -> (b: bool)
        ensures
            b == self.has_underline(),
    {
        match *self {
            Attr::Underline
            | Attr::BoldUnderline
            | Attr::UnderlineReverse
            | Attr::BoldReverseUnderline => true,
            _ => false,
        }
    }

    /// Whether the set holds reverse.
    pub fn is_reverse(&self) -> (b: bool)
        ensures
            b == self.has_reverse(),
    {
        match *self {
            Attr::Reverse
            | Attr::BoldReverse
            | Attr::UnderlineReverse
            | Attr::BoldReverseUnderline => true,
            _ => false,
        }
    }

    /// The set as a bit pattern.
    pub fn bits(&self) -> (b: u8)
        ensures
            b == self.spec_bits(),
            b < 8,
    {
        match *self {
            Attr::Default => 0,
            Attr::Bold => 1,
            Attr::Underline => 2,
            Attr::BoldUnderline => 3,
            Attr::Reverse => 4,
            Attr::BoldReverse => 5,
            Attr::UnderlineReverse => 6,
            Attr::BoldReverseUnderline => 7,
        }
    }

    /// Whether every member of `other` is a member of `self`.
    pub fn contains(&self, other: Attr) -> (b: bool)
        ensures
            b == self.spec_contains(other),
    {
        (!other.is_bold() || self.is_bold()) && (!other.is_underline() || self.is_underline())
            && (!other.is_reverse() || self.is_reverse())
    }

    /// The set that holds the members of both.
    pub fn union(&self, other: Attr) -> (a: Attr)
        ensures
            a == self.spec_union(other),
            a.spec_contains(*self),
            a.spec_contains(other),
    {
        Attr::from_flags(
            self.is_bold() || other.is_bold(),
            self.is_underline() || other.is_underline(),
            self.is_reverse() || other.is_reverse(),
        )
    }
}

impl Default for Attr {
    /// The empty set.
    fn default() -> (a: Attr)
        ensures
            a == Attr::Default,
    {
        Attr::Default
    }
}

/// The style of one side of a cell: a colour and a set of attributes.
#[derive(Debug, Copy, Clone, PartialEq, Eq, Hash, Structural)]
pub struct Style(pub Color, pub Attr);

impl Style {
    /// The style with the terminal's default colour and no attribute.
    pub open spec fn spec_default() -> Style {
        Style(Color::Default, Attr::Default)
    }

    /// A style with the given colour and attributes.
    pub fn new(color: Color, attr: Attr) -> (s: Style)
        ensures
            s == Style(color, attr),
    {
        Style(color, attr)
    }

    /// A style with the given colour and no attribute.
    pub fn with_color(c: Color) -> (s: Style)
        ensures
            s == Style(c, Attr::Default),
    {
        Style::new(c, Attr::Default)
    }

    /// A style with the given attributes and the default colour.
    pub fn with_attr(a: Attr) -> (s: Style)
        ensures
            s == Style(Color::Default, a),
    {
        Style::new(Color::Default, a)
    }

    /// The style's colour.
    pub fn color(&self) -> (c: Color)
        ensures
            c == self.0,
    {
        self.0
    }

    /// Replaces the style's colour and hands the style back for chaining.
    pub fn set_color(&mut self, newcolor: Color) -> (r: &mut Style)
        ensures
            *r == Style(newcolor, old(self).1),
            *final(self) == *final(r),
    {
        self.0 = newcolor;
        self
    }

    /// The style's attributes.
    pub fn attr(&self) -> (a: Attr)
        ensures
            a == self.1,
    {
        self.1
    }

    /// Replaces the style's attributes and hands the style back for chaining.
    pub fn set_attr(&mut self, newattr: Attr) -> (r: &mut Style)
        ensures
            *r == Style(old(self).0, newattr),
            *final(self) == *final(r),
    {
        self.1 = newattr;
        self
    }
}

impl Default for Style {
    /// The style with the terminal's default colour and no attribute.
    fn default() -> (s: Style)
        ensures
            s == Style::spec_default(),
    {
        Style::new(Color::Default, Attr::Default)
    }
}

impl Style {
    /// The style with the terminal's default colour and no attribute.
    pub fn default() -> (s: Style)
        ensures
            s == Style::spec_default(),
    {
        Style::new(Color::Default, Attr::Default)
    }
}

/// A single point of a terminal display: a character with a foreground and a
/// background style. Every cell takes exactly one column.
#[derive(Debug, Copy, Clone, PartialEq, Eq, Hash, Structural)]
pub struct Cell {
    pub ch: char,
    pub fg: Style,
    pub bg: Style,
}

impl Cell {
    /// The cell that stands for empty space: a blank with default styles.
    pub open spec fn spec_default() -> Cell {
        Cell { ch: ' ', fg: Style::spec_default(), bg: Style::spec_default() }
    }

    /// A cell with the given character and styles.
    pub fn new(ch: char, fg: Style, bg: Style) -> (c: Cell)
        ensures
            c == (Cell { ch, fg, bg }),
    {
        Cell { ch, fg, bg }
    }

    /// A cell with the given character and default styles.
    pub fn with_char(ch: char) -> (c: Cell)
        ensures
            c == (Cell { ch, fg: Style::spec_default(), bg: Style::spec_default() }),
    {
        Cell::new(ch, Style::default(), Style::default())
    }

    /// A cell with the given character and default styles.
    pub fn char_default(ch: char) -> (c: Cell)
        ensures
            c == (Cell { ch, fg: Style::spec_default(), bg: Style::spec_default() }),
    {
        Cell::with_char(ch)
    }

    /// A blank cell with the given styles.
    pub fn with_styles(fg: Style, bg: Style) -> (c: Cell)
        ensures
            c == (Cell { ch: ' ', fg, bg }),
    {
        Cell::new(' ', fg, bg)
    }

    /// A blank cell with the given styles.
    pub fn blank(fg: Style, bg: Style) -> (c: Cell)
        ensures
            c == (Cell { ch: ' ', fg, bg }),
    {
        Cell::with_styles(fg, bg)
    }

    /// A blank cell with default styles.
    pub fn blank_default() -> (c: Cell)
        ensures
            c == Cell::spec_default(),
    {
        Cell::with_styles(Style::default(), Style::default())
    }

    /// The cell's character.
    pub fn ch(&self) -> (c: char)
        ensures
            c == self.ch,
    {
        self.ch
    }

    /// Replaces the cell's character and hands the cell back for chaining.
    pub fn set_ch(&mut self, newch: char) -> (r: &mut Cell)
        ensures
            *r == (Cell { ch: newch, fg: old(self).fg, bg: old(self).bg }),
            *final(self) == *final(r),
    {
        self.ch = newch;
        self
    }

    /// The cell's foreground style.
    pub fn fg(&self) -> (s: Style)
        ensures
            s == self.fg,
    {
        self.fg
    }

    /// A mutable reference to the cell's foreground style.
    pub fn fg_mut(&mut self) -> (r: &mut Style)
        ensures
            *r == old(self).fg,
            *final(self) == (Cell { ch: old(self).ch, fg: *final(r), bg: old(self).bg }),
    {
        &mut self.fg
    }

    /// Replaces the cell's foreground style and hands the cell back.
    pub fn set_fg(&mut self, newfg: Style) -> (r: &mut Cell)
        ensures
            *r == (Cell { ch: old(self).ch, fg: newfg, bg: old(self).bg }),
            *final(self) == *final(r),
    {
        self.fg = newfg;
        self
    }

    /// The cell's background style.
    pub fn bg(&self) -> (s: Style)
        ensures
            s == self.bg,
    {
        self.bg
    }

    /// A mutable reference to the cell's background style.
    pub fn bg_mut(&mut self) -> (r: &mut Style)
        ensures
            *r == old(self).bg,
            *final(self) == (Cell { ch: old(self).ch, fg: old(self).fg, bg: *final(r) }),
    {
        &mut self.bg
    }

    /// Replaces the cell's background style and hands the cell back.
    pub fn set_bg(&mut self, newbg: Style) -> (r: &mut Cell)
        ensures
            *r == (Cell { ch: old(self).ch, fg: old(self).fg, bg: newbg }),
            *final(self) == *final(r),
    {
        self.bg = newbg;
        self
    }

    /// The attributes of the character, which the foreground style holds.
    pub fn attrs(&self) -> (a: Attr)
        ensures
            a == self.fg.1,
    {
        self.fg.1
    }

    /// Replaces the attributes of the character, which the foreground style
    /// holds, and hands the cell back.
    pub fn set_attrs(&mut self, newattrs: Attr) -> (r: &mut Cell)
        ensures
            *r == (Cell {
                ch: old(self).ch,
                fg: Style(old(self).fg.0, newattrs),
                bg: old(self).bg,
            }),
            *final(self) == *final(r),
    {
        self.fg.1 = newattrs;
        self
    }
}

impl Default for Cell {
    /// A blank cell with default styles.
    fn default() -> (c: Cell)
        ensures
            c == Cell::spec_default(),
    {
        Cell::new(' ', Style::default(), Style::default())
    }
}

} // verus!
