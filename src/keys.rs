//! Input events as the engine sees them.
use vstd::prelude::*;

verus! {

/// A logical key. The host maps every key that the engine does not name to `Other`.
#[derive(Debug, Clone, Copy, PartialEq, Eq, Structural)]
pub enum Key {
    A,
    B,
    C,
    D,
    H,
    I,
    J,
    K,
    L,
    O,
    P,
    W,
    X,
    Y,
    Num0,
    Num4,
    Num9,
    ArrowLeft,
    ArrowRight,
    ArrowUp,
    ArrowDown,
    Escape,
    Enter,
    Backspace,
    Delete,
    Home,
    End,
    Other,
}

/// The modifier keys held during a key event.
#[derive(Debug, Clone, Copy, PartialEq, Eq, Structural)]
pub struct Modifiers {
    pub shift: bool,
    pub ctrl: bool,
    pub alt: bool,
}

} // verus!
