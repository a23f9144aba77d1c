//! Laying widgets out in a row.

use vstd::prelude::*;
use crate::position::{HasPosition, HasSize, Pos, Size};
use crate::ui::alignable::Alignable;

verus! {

/// The widths of the first `n` of some elements, added up.
pub open spec fn total_width<A: Alignable>(elems: Seq<A>, n: int) -> int
    decreases n,
{
    if n <= 0 {
        0
    } else {
        total_width(elems, n - 1) + elems[n - 1].spec_size().0
    }
}

/// The column at which the element at index `i` of a row begins: the
/// column of the row, the widths of the elements before it, and a margin
/// after each of them.
pub open spec fn elem_x<A: Alignable>(elems: Seq<A>, x: int, margin: int, i: int) -> int {
    x + total_width(elems, i) + margin * i
}

/// The widths of elements never add up to less than nothing, and adding
/// more never makes less.
pub proof fn lemma_total_width_grows<A: Alignable>(elems: Seq<A>, m: int, n: int)
    requires
        0 <= m <= n,
    ensures
        0 <= total_width(elems, m) <= total_width(elems, n),
    decreases n,
{
    if n > 0 {
        if m < n {
            lemma_total_width_grows(elems, m, n - 1);
        } else {
            lemma_total_width_grows(elems, m - 1, n - 1);
        }
    }
}

/// A row of elements, one after the other from left to right, with a
/// margin between them.
pub struct HorizontalLayout<A: Alignable> {
    pub origin: Pos,
    pub size: Size,
    pub inner_margin: usize,
    pub elems: Vec<A>,
}

impl<A: Alignable> HorizontalLayout<A> {
    /// A row of the given elements, of which there is at least one, with
    /// `inner_margin` columns between them. The row begins where its first
    /// element stands, is one row high, and as wide as its elements and
    /// the margins between them.
    pub fn new(elems: Vec<A>, inner_margin: usize) -> (l: HorizontalLayout<A>)
        requires
            elems@.len() > 0,
            total_width(elems@, elems@.len() as int) + inner_margin * (elems@.len() - 1)
                <= usize::MAX,
        ensures
            l.origin == elems@[0].spec_origin(),
            l.size == (
                (total_width(elems@, elems@.len() as int) + inner_margin * (elems@.len()
                    - 1)) as usize,
                1usize,
            ),
            l.inner_margin == inner_margin,
            l.elems == elems,
    {
        let first_origin = elems[0].origin();
        let n = elems.len();
        let mut total_width: usize = 0;
        let mut i: usize = 0;
        proof {
            assert(0 <= inner_margin * (n - 1)) by (nonlinear_arith)
                requires
                    0 <= inner_margin,
                    0 <= n - 1,
            ;
        }
        while i < n
            invariant
                n == elems@.len(),
                i <= n,
                total_width == self::total_width(elems@, i as int),
                self::total_width(elems@, n as int) <= usize::MAX,
            decreases n - i,
        {
            proof {
                lemma_total_width_grows(elems@, i as int + 1, n as int);
            }
            total_width = total_width + elems[i].size().0;
            i += 1;
        }
        let width = total_width + inner_margin * (n - 1);
        HorizontalLayout { origin: first_origin, size: (width, 1), inner_margin, elems }
    }

    /// Puts the elements one after the other from the place of the row on:
    /// each at the row of the layout, in the column after the element
    /// before it and the margin.
    pub fn align_elems(&mut self)
        requires
            elem_x(
                old(self).elems@,
                old(self).origin.0 as int,
                old(self).inner_margin as int,
                old(self).elems@.len() as int,
            ) <= usize::MAX,
        ensures
            final(self).origin == old(self).origin,
            final(self).size == old(self).size,
            final(self).inner_margin == old(self).inner_margin,
            final(self).elems@.len() == old(self).elems@.len(),
            forall|i: int|
                0 <= i < old(self).elems@.len() ==> #[trigger] final(self).elems@[i] == old(
                    self,
                ).elems@[i].moved_to(
                    (
                        elem_x(
                            old(self).elems@,
                            old(self).origin.0 as int,
                            old(self).inner_margin as int,
                            i,
                        ) as usize,
                        old(self).origin.1,
                    ),
                ),
    {
        let (x, y) = self.origin;
        let margin = self.inner_margin;
        let n = self.elems.len();
        let mut current_x = x;
        let mut i: usize = 0;
        while i < n
            invariant
                n == self.elems@.len(),
                n == old(self).elems@.len(),
                i <= n,
                self.origin == old(self).origin,
                self.size == old(self).size,
                self.inner_margin == old(self).inner_margin,
                (x, y) == old(self).origin,
                margin == old(self).inner_margin,
                current_x == elem_x(old(self).elems@, x as int, margin as int, i as int),
                elem_x(old(self).elems@, x as int, margin as int, n as int) <= usize::MAX,
                forall|k: int| i <= k < n ==> self.elems@[k] == old(self).elems@[k],
                forall|k: int|
                    0 <= k < i ==> #[trigger] self.elems@[k] == old(self).elems@[k].moved_to(
                        (elem_x(old(self).elems@, x as int, margin as int, k) as usize, y),
                    ),
            decreases n - i,
        {
            proof {
                let e = old(self).elems@[i as int];
                e.lemma_moved((current_x, y));
                lemma_total_width_grows(old(self).elems@, i as int + 1, n as int);
                lemma_total_width_grows(old(self).elems@, 0, i as int);
                assert(margin * (i + 1) <= margin * n) by (nonlinear_arith)
                    requires
                        0 <= margin,
                        i + 1 <= n,
                ;
                assert(margin * (i + 1) == margin * i + margin) by (nonlinear_arith);
            }
            self.elems[i].set_origin((current_x, y));
            current_x += self.elems[i].size().0 + margin;
            i += 1;
        }
    }
}

impl<A: Alignable> HasSize for HorizontalLayout<A> {
    open spec fn spec_size(&self) -> Size {
        self.size
    }

    fn size(&self) -> (s: Size) {
        self.size
    }
}

impl<A: Alignable> HasPosition for HorizontalLayout<A> {
    open spec fn spec_origin(&self) -> Pos {
        self.origin
    }

    open spec fn moved_to(self, p: Pos) -> HorizontalLayout<A> {
        HorizontalLayout {
            origin: p,
            size: self.size,
            inner_margin: self.inner_margin,
            elems: self.elems,
        }
    }

    fn origin(&self) -> (p: Pos) {
        self.origin
    }

    fn set_origin(&mut self, new_origin: Pos) {
        self.origin = new_origin;
    }
}

impl<A: Alignable> Alignable for HorizontalLayout<A> {
    proof fn lemma_moved(self, p: Pos) {
    }
}

} // verus!
