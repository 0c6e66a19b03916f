use vstd::prelude::*;

use crate::command::InvokeCommand;
use crate::values::{ContainerId, OpacityValue, Rect, RectDelta, WindowState};

verus! {

/// Whether a window is on the screen, or on its way there or away.
#[derive(Clone, Copy, Debug, PartialEq, Eq, Structural)]
pub enum DisplayState {
    Shown,
    Showing,
    Hidden,
    Hiding,
}

/// A window, as it is reported to clients.
#[derive(Clone, Debug, PartialEq, Eq)]
pub struct WindowDto {
    pub id: ContainerId,
    pub parent_id: Option<ContainerId>,
    pub has_focus: bool,
    /// The bit pattern of the window's share of its parent, a single-precision
    /// number. Only a tiling window has one.
    pub tiling_size_bits: Option<u32>,
    pub width: i32,
    pub height: i32,
    pub x: i32,
    pub y: i32,
    pub state: WindowState,
    pub prev_state: Option<WindowState>,
    pub display_state: DisplayState,
    pub border_delta: RectDelta,
    pub floating_placement: Rect,
    pub handle: u64,
    pub title: String,
    pub process_name: String,
    /// Whether the user is dragging the window.
    pub is_dragged: bool,
    pub transparency_pin: Option<OpacityValue>,
}

/// A container, as it is reported to clients.
#[derive(Clone, Debug, PartialEq, Eq)]
pub enum ContainerDto {
    Window(WindowDto),
    /// A root, monitor, workspace or split container.
    Other,
}

/// What the window manager tells the rest of the system.
#[derive(Clone, Debug, PartialEq, Eq)]
pub enum WmEvent {
    ApplicationExiting,
    FocusChanged { focused_container: ContainerDto },
    FocusedContainerMoved { focused_container: ContainerDto },
    /// Any other event.
    Other,
}

/// A combination of keys, by their key codes.
#[derive(Clone, Debug, PartialEq, Eq)]
pub struct Keybinding {
    pub keys: Vec<u16>,
}

/// The commands that are bound to some key combinations.
#[derive(Clone, Debug, PartialEq, Eq)]
pub struct KeybindingConfig {
    pub bindings: Vec<Keybinding>,
    pub commands: Vec<InvokeCommand>,
}

/// What happened to a native window. `window` is its handle.
#[derive(Clone, Copy, Debug, PartialEq, Eq, Structural)]
pub enum WindowEvent {
    Focused { window: u64 },
    Shown { window: u64 },
    Hidden { window: u64 },
    MovedOrResized { window: u64, is_interactive_start: bool, is_interactive_end: bool },
    Minimized { window: u64 },
    MinimizeEnded { window: u64 },
    TitleChanged { window: u64 },
    Destroyed { window_id: u64 },
}

/// What the platform reports.
#[derive(Clone, Debug, PartialEq, Eq)]
pub enum PlatformEvent {
    DisplaySettingsChanged,
    Keybinding(Keybinding),
    /// A mouse event, by its ticket at the platform.
    Mouse { ticket: u64 },
    Window(WindowEvent),
}

} // verus!
