//! Positions and sizes on the screen.

use vstd::prelude::*;

verus! {

/// A position on the screen as `(x, y)`: column, then row.
pub type Pos = (usize, usize);

/// A size as `(cols, rows)`.
pub type Size = (usize, usize);

/// What has a size.
pub trait HasSize {
    /// The size as `(cols, rows)`.
    spec fn spec_size(&self) -> Size;

    /// The size as `(cols, rows)`.
    fn size(&self) -> (s: Size)
        ensures
            s == self.spec_size(),
    ;
}

/// What has a place on the screen.
pub trait HasPosition: Sized {
    /// The position of the top left corner.
    spec fn spec_origin(&self) -> Pos;

    /// The same thing with its top left corner at `p`.
    spec fn moved_to(self, p: Pos) -> Self;

    /// The position of the top left corner.
    fn origin(&self) -> (p: Pos)
        ensures
            p == self.spec_origin(),
    ;

    /// Moves the top left corner to `new_origin`; nothing else changes.
    fn set_origin(&mut self, new_origin: Pos)
        ensures
            final(self).spec_origin() == new_origin,
            *final(self) == old(self).moved_to(new_origin),
    ;
}

} // verus!
