//! Core of a terminal hex viewer: the hex row formatter, the command language,
//! the command prompt, the viewport with its redraw bookkeeping, and the
//! decisions of the event loop.

pub mod byte_display;
pub mod command_prompt;
pub mod handler;
pub mod line;
pub mod screen;
pub mod status_bar;
mod text;

pub use crate::screen::Frame;
pub use crate::screen::State;
