use vstd::prelude::*;

verus! {

/// One occurrence reported by the platform for a window.
#[derive(Clone, Copy, Debug, PartialEq, Eq, Structural)]
pub enum Event {
    /// The client area now has this size in points.
    Resized(u32, u32),
    /// The window's top-left corner moved to this desktop position.
    Moved(i32, i32),
    /// The platform destroyed the window.
    Closed,
    /// A character was typed.
    ReceivedCharacter(char),
    /// The window gained (`true`) or lost (`false`) the focus.
    Focused(bool),
    /// The cursor moved to this position within the window.
    MouseMoved(i32, i32),
    /// The window's contents must be drawn again.
    Refresh,
    /// A wakeup arrived through a window proxy.
    Awakened,
}

/// The shape of the mouse cursor over a window.
#[derive(Clone, Copy, Debug, PartialEq, Eq, Structural)]
pub enum MouseCursor {
    Default,
    Crosshair,
    Hand,
    Arrow,
    Move,
    Text,
    Wait,
    Help,
    Progress,
    NotAllowed,
    ContextMenu,
    NoneCursor,
    Cell,
    VerticalText,
    Alias,
    Copy,
    NoDrop,
    Grab,
    Grabbing,
    AllScroll,
    ZoomIn,
    ZoomOut,
    EResize,
    NResize,
    NeResize,
    NwResize,
    SResize,
    SeResize,
    SwResize,
    WResize,
    EwResize,
    NsResize,
    NeswResize,
    NwseResize,
    ColResize,
    RowResize,
}

/// How the cursor behaves over a window.
#[derive(Clone, Copy, Debug, PartialEq, Eq, Structural)]
pub enum CursorState {
    /// The cursor is shown and moves freely.
    Normal,
    /// The cursor is hidden while over the window.
    Hide,
    /// The cursor is hidden and confined to the window.
    Grab,
}

/// Why a window could not be created.
#[derive(Debug, PartialEq, Eq)]
pub enum CreationError {
    /// The platform reported an error, with its message.
    OsError(String),
    /// The requested configuration cannot be provided.
    NotSupported,
}

} // verus!
