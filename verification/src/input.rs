use vstd::prelude::*;

verus! {

/// A physical key, as far as the renderer tells keys apart.
#[derive(Clone, Copy, Debug, PartialEq, Eq, Structural)]
pub enum KeyCode {
    Escape,
    Other,
}

/// Where the cursor is inside a window, in physical pixels from the top left
/// corner. Each coordinate is kept as the 64-bit pattern of its
/// double-precision value.
#[derive(Clone, Copy, Debug, PartialEq, Eq, Structural)]
pub struct CursorPosition {
    pub x: u64,
    pub y: u64,
}

/// What a window reports to its owner.
#[derive(Clone, Copy, Debug, PartialEq, Eq, Structural)]
pub enum WindowEvent {
    /// The user asked for the window to be closed.
    CloseRequested,
    /// The drawable area now has this extent in physical pixels.
    Resized { width: u32, height: u32 },
    /// The window wants its contents drawn.
    RedrawRequested,
    /// A key went down or up; `key` is `None` when the platform could not
    /// resolve a physical key code.
    KeyboardInput { key: Option<KeyCode>, pressed: bool },
    /// The cursor moved inside the window.
    CursorMoved { position: CursorPosition },
    /// Anything else.
    Other,
}

} // verus!
