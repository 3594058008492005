//! Geometry, layout, text rendering and decisions of the `ger` terminal browser of
//! Gerrit changes.
//!
//! The drawing functions of this library do not talk to a terminal: they append
//! terminal commands (`command::Command`) to a buffer, which the program then sends to
//! the terminal.
#![allow(unused_imports)]

pub mod rect;
pub mod text;
pub mod command;
pub mod draw;
pub mod layout;
pub mod change;
pub mod table;
pub mod term;
pub mod winbox;
pub mod border_box;
pub mod util;
pub mod style;
pub mod scroll;
pub mod list;
pub mod changes;
pub mod tui;
