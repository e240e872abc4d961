//! A multi-line text prompt for terminals: a text buffer with a cursor and a
//! selection, a planner for the window of lines that is shown, and a renderer
//! that turns a change of the buffer into the fewest terminal operations.

pub mod buffer;
pub mod classic;
pub mod editor;
pub mod keybindings;
pub mod laws;
pub mod model;
pub mod renderer;
pub mod screen;
pub mod selection;
pub mod styles;
pub mod term;
pub mod text;
pub mod viewport;
