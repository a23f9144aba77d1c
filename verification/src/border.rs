//! The border: a box drawn along the edges of a panel.

use vstd::prelude::*;
use crate::cell::Cell;
use crate::panel::{Draw, Panel};
use crate::symbol;

verus! {

/// The characters of a box: its four corners and its two edges.
#[derive(Debug, Copy, Clone, PartialEq, Eq, Structural)]
pub struct Border {
    pub tl: char,
    pub tr: char,
    pub bl: char,
    pub br: char,
    pub h_edge: char,
    pub v_edge: char,
}

impl Border {
    /// The character of a horizontal line of the box at the `j`-th of its
    /// `lenx` cells: a corner at either end, the horizontal edge between.
    pub open spec fn line_ch(self, left: char, right: char, j: int, lenx: int) -> char {
        if j == 0 {
            left
        } else if j == lenx - 1 {
            right
        } else {
            self.h_edge
        }
    }

    /// Whether the cell with the number `i` among the cells between the
    /// top line and the bottom of the panel, counted row by row from
    /// zero, gets the vertical edge: its number is a multiple of the
    /// width of the panel, or lies `lenx - 1` beyond one. With the box at
    /// the left margin these are the first and the last cell of each row.
    pub open spec fn is_v_edge(i: int, cols: int, lenx: int) -> bool {
        i % cols == 0 || i % cols == lenx - 1
    }

    /// The character that the cell in column `tx` and row `ty` gets when
    /// the box is drawn at `(x, y)` on a panel of the size `(cols, rows)`,
    /// or `None` where the cell keeps its character. The bottom line is
    /// drawn in the last row of the panel, over whatever else the box put
    /// there.
    pub open spec fn box_ch(self, x: int, y: int, cols: int, rows: int, tx: int, ty: int) -> Option<
        char,
    > {
        let lenx = cols - x;
        let j = tx - x;
        if tx < x {
            None
        } else if ty == rows - 1 {
            Some(self.line_ch(self.bl, self.br, j, lenx))
        } else if ty == y {
            Some(self.line_ch(self.tl, self.tr, j, lenx))
        } else if ty > y && Border::is_v_edge((ty - y - 1) * lenx + j, cols, lenx) {
            Some(self.v_edge)
        } else {
            None
        }
    }

    /// Draws one horizontal line of the box in row `row`, from column `x`
    /// to the right margin.
    fn draw_line(&self, x: usize, row: usize, left: char, right: char, target: &mut Panel)
        requires
            x <= old(target).spec_cols(),
            row < old(target).spec_rows(),
        ensures
            final(target).wf(),
            final(target).spec_cols() == old(target).spec_cols(),
            final(target).spec_rows() == old(target).spec_rows(),
            forall|tx: int, ty: int|
                old(target).in_bounds(tx, ty) ==> #[trigger] final(target).at(tx, ty) == if ty
                    == row && tx >= x {
                    Cell {
                        ch: self.line_ch(left, right, tx - x, old(target).spec_cols() - x),
                        ..old(target).at(tx, ty)
                    }
                } else {
                    old(target).at(tx, ty)
                },
    {
        let (cols, rows) = target.size();
        let lenx = cols - x;
        let mut i: usize = 0;
        while i < lenx
            invariant
                x <= cols,
                lenx == cols - x,
                row < rows,
                i <= lenx,
                target.wf(),
                target.spec_cols() == cols,
                target.spec_rows() == rows,
                old(target).spec_cols() == cols,
                old(target).spec_rows() == rows,
                forall|tx: int, ty: int|
                    old(target).in_bounds(tx, ty) ==> #[trigger] target.at(tx, ty) == if ty == row
                        && x <= tx < x + i {
                        Cell {
                            ch: self.line_ch(left, right, tx - x, lenx as int),
                            ..old(target).at(tx, ty)
                        }
                    } else {
                        old(target).at(tx, ty)
                    },
            decreases lenx - i,
        {
            let ch = if i == 0 {
                left
            } else if i == (lenx - 1) {
                right
            } else {
                self.h_edge
            };
            let ghost before = *target;
            target.set_ch(x + i, row, ch);
            assert forall|tx: int, ty: int| old(target).in_bounds(tx, ty) implies #[trigger] target.at(
                tx,
                ty,
            ) == if ty == row && x <= tx < x + i + 1 {
                Cell {
                    ch: self.line_ch(left, right, tx - x, lenx as int),
                    ..old(target).at(tx, ty)
                }
            } else {
                old(target).at(tx, ty)
            } by {
                assert(before.in_bounds(tx, ty));
            }
            i += 1;
        }
    }
}

impl Draw for Border {
    /// The place lies within the panel or on its far edges, and the panel
    /// has cells.
    open spec fn can_draw(&self, x: usize, y: usize, target: &Panel) -> bool {
        &&& x <= target.spec_cols()
        &&& y <= target.spec_rows()
        &&& target.spec_cols() > 0
        &&& target.spec_rows() > 0
    }

    /// The cells of the box get its characters and keep their styles.
    open spec fn drawn(&self, x: usize, y: usize, target: &Panel, tx: int, ty: int) -> Cell {
        match self.box_ch(
            x as int,
            y as int,
            target.spec_cols() as int,
            target.spec_rows() as int,
            tx,
            ty,
        ) {
            Some(ch) => Cell { ch, ..target.at(tx, ty) },
            None => target.at(tx, ty),
        }
    }

    fn draw(&self, x: usize, y: usize, target: &mut Panel) {
        let (cols, rows) = target.size();
        let lenx = cols - x;
        // The top line.
        if y < rows {
            self.draw_line(x, y, self.tl, self.tr, target);
        }
        let ghost topped = *target;
        // The lines between.
        if y < rows && lenx > 0 {
            let mut i: usize = 0;
            let mut r: usize = y + 1;
            while r < rows
                invariant
                    0 < cols,
                    x < cols,
                    lenx == cols - x,
                    y < r <= rows,
                    i == (r - y - 1) * lenx,
                    target.wf(),
                    target.spec_cols() == cols,
                    target.spec_rows() == rows,
                    topped.wf(),
                    topped.spec_cols() == cols,
                    topped.spec_rows() == rows,
                    forall|tx: int, ty: int|
                        topped.in_bounds(tx, ty) ==> #[trigger] target.at(tx, ty) == if y < ty < r
                            && tx >= x && Border::is_v_edge(
                            (ty - y - 1) * lenx + (tx - x),
                            cols as int,
                            lenx as int,
                        ) {
                            Cell { ch: self.v_edge, ..topped.at(tx, ty) }
                        } else {
                            topped.at(tx, ty)
                        },
                decreases rows - r,
            {
                let mut j: usize = 0;
                proof {
                    assert((r - y) * lenx == (r - y - 1) * lenx + lenx) by (nonlinear_arith);
                    assert((r - y) * lenx <= rows * cols) by (nonlinear_arith)
                        requires
                            0 <= r - y <= rows,
                            0 <= lenx <= cols,
                    ;
                    assert(rows * cols == cols * rows) by (nonlinear_arith);
                }
                while j < lenx
                    invariant
                        0 < cols,
                        x < cols,
                        lenx == cols - x,
                        y < r < rows,
                        j <= lenx,
                        i == (r - y - 1) * lenx + j,
                        (r - y - 1) * lenx + lenx <= cols * rows,
                        target.wf(),
                        target.spec_cols() == cols,
                        target.spec_rows() == rows,
                        topped.wf(),
                        topped.spec_cols() == cols,
                        topped.spec_rows() == rows,
                        forall|tx: int, ty: int|
                            topped.in_bounds(tx, ty) ==> #[trigger] target.at(tx, ty) == if tx >= x
                                && (y < ty < r || (ty == r && tx < x + j)) && Border::is_v_edge(
                                (ty - y - 1) * lenx + (tx - x),
                                cols as int,
                                lenx as int,
                            ) {
                                Cell { ch: self.v_edge, ..topped.at(tx, ty) }
                            } else {
                                topped.at(tx, ty)
                            },
                    decreases lenx - j,
                {
                    let ghost before = *target;
                    if i % cols == 0 || i % cols == (lenx - 1) {
                        target.set_ch(x + j, r, self.v_edge);
                    }
                    assert forall|tx: int, ty: int| topped.in_bounds(tx, ty) implies #[trigger] target.at(
                        tx,
                        ty,
                    ) == if tx >= x && (y < ty < r || (ty == r && tx < x + j + 1))
                        && Border::is_v_edge(
                        (ty - y - 1) * lenx + (tx - x),
                        cols as int,
                        lenx as int,
                    ) {
                        Cell { ch: self.v_edge, ..topped.at(tx, ty) }
                    } else {
                        topped.at(tx, ty)
                    } by {
                        assert(before.in_bounds(tx, ty));
                    }
                    i += 1;
                    j += 1;
                }
                r += 1;
            }
        }
        let ghost sided = *target;
        // The bottom line.
        self.draw_line(x, rows - 1, self.bl, self.br, target);
        assert forall|tx: int, ty: int| old(target).in_bounds(tx, ty) implies #[trigger] target.at(
            tx,
            ty,
        ) == self.drawn(x, y, old(target), tx, ty) by {
            assert(sided.in_bounds(tx, ty));
            assert(topped.in_bounds(tx, ty));
        }
    }
}

impl Default for Border {
    /// The box of heavy lines.
    fn default() -> (b: Border)
        ensures
            b == (Border {
                tl: symbol::BOX_H_DN_RT,
                tr: symbol::BOX_H_DN_LT,
                bl: symbol::BOX_H_UP_RT,
                br: symbol::BOX_H_UP_LT,
                h_edge: symbol::BOX_H_HORIZ,
                v_edge: symbol::BOX_H_VERT,
            }),
    {
        Border {
            tl: symbol::BOX_H_DN_RT,
            tr: symbol::BOX_H_DN_LT,
            bl: symbol::BOX_H_UP_RT,
            br: symbol::BOX_H_UP_LT,
            h_edge: symbol::BOX_H_HORIZ,
            v_edge: symbol::BOX_H_VERT,
        }
    }
}

} // verus!
