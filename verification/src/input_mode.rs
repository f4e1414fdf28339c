//! The interaction modes of the checklist application.

use vstd::prelude::*;

verus! {

/// Which high-level command vocabulary is currently valid. Exactly one mode
/// is active at any time; the application starts in `Normal`.
#[derive(Clone, Copy, Debug, PartialEq, Eq, Structural)]
pub enum InputMode {
    /// Navigating and manipulating the item list.
    Normal,
    /// Typing the text of a new item into the input buffer.
    Editing,
    /// Typing the filename to save the list under.
    Saving,
    /// Choosing a previously saved file from the file list.
    Loading,
}

} // verus!
