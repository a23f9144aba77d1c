//! A small toolkit of widgets that draw on grids of cells.

pub mod accessor;
pub mod alignable;
pub mod attributes;
pub mod base;
pub mod button;
pub mod canvas;
pub mod checkbutton;
pub mod dialog;
pub mod frame;
pub mod hlayout;
pub mod label;
pub mod layout;
pub mod painter;
pub mod stdbutton;

pub mod vlayout;
pub mod widget;
pub mod wrap;
