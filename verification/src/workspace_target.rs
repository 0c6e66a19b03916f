use vstd::prelude::*;

verus! {

/// A direction on the screen.
#[derive(Clone, Copy, Debug, PartialEq, Eq, Structural)]
pub enum Direction {
    Left,
    Right,
    Up,
    Down,
}

/// How a workspace is addressed, by a command that focuses it or that moves a
/// window to it.
#[derive(Clone, Debug, PartialEq, Eq)]
pub enum WorkspaceTarget {
    Name(String),
    /// Workspace matched by name or display name among the workspaces on the
    /// origin workspace's monitor (per-monitor workspace addressing).
    NameOnMonitor(String),
    Recent,
    NextActive,
    PreviousActive,
    NextActiveInMonitor,
    PreviousActiveInMonitor,
    Next,
    Previous,
    Direction(Direction),
}

} // verus!
