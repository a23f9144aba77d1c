//! The position of the terminal's cursor.

use vstd::prelude::*;

verus! {

/// Where the cursor is: at a column and a row, or nowhere (hidden, or not
/// known).
#[derive(Debug, Copy, Clone, PartialEq, Eq, Structural)]
pub enum Cursor {
    Valid(usize, usize),
    Invalid,
}

impl Cursor {
    /// Where the cursor stands after one character was written at `self`:
    /// one column to the right.
    pub open spec fn spec_next(self) -> Cursor {
        match self {
            Cursor::Valid(x, y) => Cursor::Valid((x + 1) as usize, y),
            Cursor::Invalid => Cursor::Invalid,
        }
    }

    /// Where the cursor stands after one character was written at `self`:
    /// one column to the right. A cursor that is nowhere stays nowhere.
    pub fn next(&self) -> (c: Cursor)
        requires
            *self matches Cursor::Valid(x, _) ==> x < usize::MAX,
        ensures
            c == self.spec_next(),
    {
        match *self {
            Cursor::Valid(x, y) => Cursor::Valid(x + 1, y),
            Cursor::Invalid => Cursor::Invalid,
        }
    }

    /// Whether the cursor is somewhere.
    pub fn is_valid(&self) -> (b: bool)
        ensures
            b == (*self != Cursor::Invalid),
    {
        match *self {
            Cursor::Valid(..) => true,
            Cursor::Invalid => false,
        }
    }
}

} // verus!
