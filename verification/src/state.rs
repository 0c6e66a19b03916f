use vstd::prelude::*;

use crate::values::{ContainerId, WindowState};

verus! {

#[derive(Clone, Copy, Debug, PartialEq, Eq, Structural)]
pub enum Platform {
    Windows,
    MacOs,
}

/// What the window manager reads of a window.
#[derive(Clone, Copy, Debug, PartialEq, Eq, Structural)]
pub struct WindowFacts {
    pub state: WindowState,
    /// Whether the window's transparency is pinned.
    pub is_transparency_pinned: bool,
}

/// What the window manager reads of a container, besides its identity.
#[derive(Clone, Copy, Debug, PartialEq, Eq, Structural)]
pub struct ContainerFacts {
    /// Whether the container has been taken out of the tree.
    pub is_detached: bool,
    /// Present if and only if the container is a window.
    pub window: Option<WindowFacts>,
    /// The node of the workspace that the container is in, if any.
    pub workspace: Option<u64>,
}

/// A container of the layout tree, with what is known of it at one moment.
///
/// `node` tells the container's own node apart from every other, also from a
/// later one of the same `id`: where a window changes between tiling and
/// floating, its old node is detached and a new node takes over its `id`.
#[derive(Clone, Copy, Debug, PartialEq, Eq, Structural)]
pub struct Container {
    pub node: u64,
    pub id: ContainerId,
    pub facts: ContainerFacts,
}

/// What the window manager reads of its state, at one moment.
#[derive(Clone, Copy, Debug, PartialEq, Eq, Structural)]
pub struct WmState {
    pub platform: Platform,
    pub is_paused: bool,
    /// Whether changes are queued that the platform has not been told of.
    pub has_pending_changes: bool,
    pub focused_container: Option<Container>,
    /// The node of the root of the layout tree.
    pub root_node: u64,
}

} // verus!
