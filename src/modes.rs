use vstd::prelude::*;

verus! {

/// The screens of the notes application around the editor.
#[derive(Debug, Clone, Copy, PartialEq, Eq, Structural)]
pub enum AppMode {
    /// Navigating the list of notes.
    List,
    /// Editing a note.
    Editor,
    /// Renaming a note.
    Rename,
}

/// The modes of the editing engine.
#[derive(Debug, Clone, Copy, PartialEq, Eq, Structural)]
pub enum VimMode {
    Normal,
    Insert,
    Command,
}

/// An operator waiting for the key that selects its span.
#[derive(Debug, Clone, Copy, PartialEq, Eq, Structural)]
pub enum VimOperation {
    /// No operator is pending.
    Idle,
    /// `d`: the span leaves the document and goes to the register.
    Delete,
    /// `y`: the span is copied to the register.
    Yank,
    /// `c`: as `Delete`, then Insert mode at the start of the span.
    Change,
}

} // verus!
