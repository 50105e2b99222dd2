//! A to-do board for the terminal, drawn by a character-cell renderer: a
//! double-buffered virtual screen that yields the commands for the cells
//! that changed between two frames, and an immediate-mode layout stack for
//! nested horizontal and vertical groups of widgets.
//!
//! The renderer is `cell`, `grid`, `screen_buf`, `emit` and `ui`; the board
//! is `todo`, with `input` for what the keyboard does to it and `view` for
//! how it looks on screen.

pub mod cell;
pub mod emit;
pub mod grid;
pub mod input;
pub mod screen_buf;
pub mod text;
pub mod todo;
pub mod ui;
pub mod view;
