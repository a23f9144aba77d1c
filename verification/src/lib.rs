//! A terminal-control engine: a grid of styled character cells, the
//! capability table that turns display operations into escape sequences,
//! and a double-buffered renderer that emits only what changed.

pub mod border;
pub mod bytebuffer;
pub mod cell;
pub mod cellbuffer;
pub mod chars;
pub mod cursor;
pub mod device;
pub mod driver;
pub mod error;
pub mod expand;
pub mod input;
pub mod panel;
pub mod position;
pub mod render;
pub mod status;
pub mod symbol;
pub mod termctl;
pub mod terminal;
pub mod text;
pub mod time;
pub mod ui;

pub use crate::cell::{Attr, Cell, Color, Style};
pub use crate::cellbuffer::CellBuffer;
pub use crate::input::Event;
pub use crate::position::{HasPosition, HasSize, Pos, Size};
pub use crate::terminal::Terminal;
pub use crate::ui::accessor::CellAccessor;
