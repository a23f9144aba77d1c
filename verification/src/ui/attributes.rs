//! The choices that widgets are configured with.

use vstd::prelude::*;

verus! {

/// Where a widget stands in its parent from top to bottom.
#[derive(Debug, Copy, Clone, PartialEq, Eq, Structural)]
pub enum VerticalAlign {
    Top,
    Middle,
    Bottom,
}

/// Where a widget stands in its parent from left to right.
#[derive(Debug, Copy, Clone, PartialEq, Eq, Structural)]
pub enum HorizontalAlign {
    Left,
    Middle,
    Right,
}

/// What pressing a button means.
#[derive(Debug, Copy, Clone, PartialEq, Eq, Structural)]
pub enum ButtonResult {
    Okay,
    Cancel,
    Custom(i32),
}

/// How a dialog was answered.
#[derive(Debug, Copy, Clone, PartialEq, Eq, Structural)]
pub enum DialogResult {
    Okay,
    Cancel,
    Custom(i32),
}

/// The direction of a line of cells.
#[derive(Debug, Copy, Clone, PartialEq, Eq, Structural)]
pub enum Orientation {
    Horizontal,
    Vertical,
}

} // verus!
