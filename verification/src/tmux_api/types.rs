//! What is said to tmux, and what it says.

use vstd::prelude::*;

verus! {

/// A direction in which the focus moves between panes.
#[derive(Debug, Clone, Copy, PartialEq, Eq, Structural)]
pub enum Direction {
    Left,
    Right,
    Up,
    Down,
}

/// Why there is no tmux session.
#[derive(Debug, Clone, Copy, PartialEq, Eq, Structural)]
pub enum IvyError {
    /// tmux could not be started.
    TmuxSpawnFailed,
}

/// Why tmux is not read from any more.
#[derive(Debug, Clone, Copy, PartialEq, Eq, Structural)]
pub enum TmuxError {
    /// The SSH channel cannot be read.
    SshClosed,
    /// The parser gave up.
    ParseFailed,
}

/// A command that was sent to tmux and whose reply is awaited.
#[derive(Debug, Clone, Copy, PartialEq, Eq, Structural)]
pub enum TmuxCommand {
    Init,
    InitialLayout,
    Keypress,
    TabNew,
    TabClose,
    TabSelect(u32),
    TabRename(u32),
    PaneSplit(bool),
    PaneClose(u32),
    PaneSelect(u32),
    PaneCurrentPath(u32),
    PaneMoveFocus(Direction),
    PaneZoom(u32),
    PaneResize(u32),
    ChangeSize(i32, i32),
    InitialOutput(u32),
    ClipboardPaste,
    ClearScrollback(u32),
}

/// What tmux reports.
#[derive(Debug)]
pub enum TmuxEvent {
    ScrollOutput(u32, usize),
    InitialLayout(LayoutSync),
    InitialLayoutFinished,
    InitialOutputFinished(u32),
    LayoutChanged(LayoutSync),
    Output(u32, Vec<u8>, bool),
    SizeChanged,
    PaneFocusChanged(u32, u32),
    TabFocusChanged(u32),
    TabNew(LayoutSync),
    TabClosed(u32),
    TabRenamed(u32, String),
    SessionChanged(u32, String),
    Exit,
    ScrollbackCleared(u32),
}

/// The layout of a tab.
#[derive(Debug)]
pub struct LayoutSync {
    pub tab_id: u32,
    pub layout: Vec<TmuxPane>,
    pub visible_layout: Vec<TmuxPane>,
    pub flags: LayoutFlagSet,
    pub name: Option<String>,
}

/// What can be true of a layout.
#[derive(Debug, Clone, Copy, PartialEq, Eq, Structural)]
pub enum LayoutFlags {
    HasFocus,
    IsZoomed,
}

/// The [`LayoutFlags`] that are true of a layout.
#[derive(Debug, Clone, Copy, PartialEq, Eq, Structural)]
pub struct LayoutFlagSet {
    pub has_focus: bool,
    pub is_zoomed: bool,
}

/// A place and a size, in character cells.
#[derive(Debug, Clone, Copy, PartialEq, Eq, Structural)]
pub struct Rectangle {
    pub x: i32,
    pub y: i32,
    pub width: i32,
    pub height: i32,
}

/// How the panes of a container lie.
#[derive(Debug, Clone, Copy, PartialEq, Eq, Structural)]
pub enum Orientation {
    Horizontal,
    Vertical,
}

/// A step of a walk through a layout.
#[derive(Debug, Clone, Copy, PartialEq, Eq, Structural)]
pub enum TmuxPane {
    Terminal(u32, Rectangle),
    /// How the panes in it lie, and its bounds.
    Container(Orientation, Rectangle),
    Return,
}

} // verus!
