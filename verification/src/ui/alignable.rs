//! Placing a widget within its parent.

use vstd::prelude::*;
use crate::position::{HasPosition, HasSize, Pos};
use crate::ui::frame::Frame;
use crate::ui::attributes::{HorizontalAlign, VerticalAlign};

verus! {

/// The column that a widget of `cols` columns gets in a parent of
/// `parent_cols` columns.
pub open spec fn aligned_x(parent_cols: int, cols: int, halign: HorizontalAlign, margin: int) -> int {
    match halign {
        HorizontalAlign::Left => margin,
        HorizontalAlign::Right => parent_cols - cols - margin,
        HorizontalAlign::Middle => (parent_cols - cols) / 2,
    }
}

/// The row that a widget of `rows` rows gets in a parent of `parent_rows`
/// rows.
pub open spec fn aligned_y(parent_rows: int, rows: int, valign: VerticalAlign, margin: int) -> int {
    match valign {
        VerticalAlign::Top => margin,
        VerticalAlign::Bottom => parent_rows - rows - margin,
        VerticalAlign::Middle => (parent_rows - rows) / 2,
    }
}

/// What has a size and a place and can be placed within a parent.
pub trait Alignable: HasSize + HasPosition {
    /// Moving a thing changes its place and not its size.
    proof fn lemma_moved(self, p: Pos)
        ensures
            self.moved_to(p).spec_size() == self.spec_size(),
            self.moved_to(p).spec_origin() == p,
    ;

    /// Moves the widget to the column that `halign` gives it in `parent`,
    /// with `margin` columns kept free at the side it is aligned to. Its
    /// row stays.
    fn halign<P: HasSize>(&mut self, parent: &P, halign: HorizontalAlign, margin: usize)
        requires
            0 <= aligned_x(
                parent.spec_size().0 as int,
                old(self).spec_size().0 as int,
                halign,
                margin as int,
            ),
        ensures
            *final(self) == old(self).moved_to(
                (
                    aligned_x(
                        parent.spec_size().0 as int,
                        old(self).spec_size().0 as int,
                        halign,
                        margin as int,
                    ) as usize,
                    old(self).spec_origin().1,
                ),
            ),
    {
        let (cols, _) = self.size();
        let (_, y) = self.origin();
        let (parent_cols, _) = parent.size();
        let newx = match halign {
            HorizontalAlign::Left => margin,
            HorizontalAlign::Right => parent_cols - cols - margin,
            HorizontalAlign::Middle => (parent_cols - cols) / 2,
        };
        self.set_origin((newx, y));
    }

    /// Moves the widget to the row that `valign` gives it in `parent`,
    /// with `margin` rows kept free at the side it is aligned to. Its
    /// column stays.
    fn valign<P: HasSize>(&mut self, parent: &P, valign: VerticalAlign, margin: usize)
        requires
            0 <= aligned_y(
                parent.spec_size().1 as int,
                old(self).spec_size().1 as int,
                valign,
                margin as int,
            ),
        ensures
            *final(self) == old(self).moved_to(
                (
                    old(self).spec_origin().0,
                    aligned_y(
                        parent.spec_size().1 as int,
                        old(self).spec_size().1 as int,
                        valign,
                        margin as int,
                    ) as usize,
                ),
            ),
    {
        let (_, rows) = self.size();
        let (x, _) = self.origin();
        let (_, parent_rows) = parent.size();
        let newy = match valign {
            VerticalAlign::Top => margin,
            VerticalAlign::Bottom => parent_rows - rows - margin,
            VerticalAlign::Middle => (parent_rows - rows) / 2,
        };
        self.set_origin((x, newy));
    }

    /// Moves the widget to the place that `halign` and `valign` give it in
    /// `parent`, with the margins `(columns, rows)`.
    fn align<P: HasSize>(
        &mut self,
        parent: &P,
        halign: HorizontalAlign,
        valign: VerticalAlign,
        margin: (usize, usize),
    )
        requires
            0 <= aligned_x(
                parent.spec_size().0 as int,
                old(self).spec_size().0 as int,
                halign,
                margin.0 as int,
            ),
            0 <= aligned_y(
                parent.spec_size().1 as int,
                old(self).spec_size().1 as int,
                valign,
                margin.1 as int,
            ),
        ensures
            *final(self) == old(self).moved_to(
                (
                    aligned_x(
                        parent.spec_size().0 as int,
                        old(self).spec_size().0 as int,
                        halign,
                        margin.0 as int,
                    ) as usize,
                    aligned_y(
                        parent.spec_size().1 as int,
                        old(self).spec_size().1 as int,
                        valign,
                        margin.1 as int,
                    ) as usize,
                ),
            ),
    {
        let (cols, rows) = self.size();
        let (parent_cols, parent_rows) = parent.size();
        let newx = match halign {
            HorizontalAlign::Left => margin.0,
            HorizontalAlign::Right => parent_cols - cols - margin.0,
            HorizontalAlign::Middle => (parent_cols - cols) / 2,
        };
        let newy = match valign {
            VerticalAlign::Top => margin.1,
            VerticalAlign::Bottom => parent_rows - rows - margin.1,
            VerticalAlign::Middle => (parent_rows - rows) / 2,
        };
        self.set_origin((newx, newy));
    }
}

impl Alignable for Frame {
    proof fn lemma_moved(self, p: Pos) {
    }
}

} // verus!
