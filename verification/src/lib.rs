//! An interactive checklist manager: an ordered list of text items with
//! completion flags, a cyclic selection, a mode-driven command state machine,
//! and a line-oriented text format for saving and loading lists.
//!
//! All file and terminal I/O lives outside this crate; the library works on
//! plain values (strings, vectors) handed in by its caller.

pub mod app;
pub mod codec;
pub mod input_mode;
pub mod text;
pub mod todo;
