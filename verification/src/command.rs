use vstd::prelude::*;

use crate::values::{
    ContainerId, LengthValue, OpacityDelta, OpacityValue, TilingDirection, TitleBarVisibility,
};
use crate::workspace_target::Direction;

verus! {

#[derive(Clone, Copy, Debug, PartialEq, Eq, Structural)]
pub struct InvokeAdjustBordersCommand {
    pub top: Option<LengthValue>,
    pub right: Option<LengthValue>,
    pub bottom: Option<LengthValue>,
    pub left: Option<LengthValue>,
}

#[derive(Clone, Debug, PartialEq, Eq)]
pub struct InvokeFocusCommand {
    pub direction: Option<Direction>,
    pub workspace_in_direction: Option<Direction>,
    pub container_id: Option<ContainerId>,
    pub workspace: Option<String>,
    pub workspace_on_monitor: Option<String>,
    pub monitor: Option<usize>,
    pub next_active_workspace: bool,
    pub prev_active_workspace: bool,
    pub next_workspace: bool,
    pub prev_workspace: bool,
    pub recent_workspace: bool,
    pub next_active_workspace_on_monitor: bool,
    pub prev_active_workspace_on_monitor: bool,
}

#[derive(Clone, Debug, PartialEq, Eq)]
pub struct InvokeMoveCommand {
    pub direction: Option<Direction>,
    pub workspace_in_direction: Option<Direction>,
    pub workspace: Option<String>,
    pub workspace_on_monitor: Option<String>,
    pub next_active_workspace: bool,
    pub prev_active_workspace: bool,
    pub next_workspace: bool,
    pub prev_workspace: bool,
    pub recent_workspace: bool,
    pub next_active_workspace_on_monitor: bool,
    pub prev_active_workspace_on_monitor: bool,
}

#[derive(Clone, Copy, Debug, PartialEq, Eq, Structural)]
pub struct InvokePositionCommand {
    pub centered: bool,
    pub x_pos: Option<i32>,
    pub y_pos: Option<i32>,
}

#[derive(Clone, Copy, Debug, PartialEq, Eq, Structural)]
pub struct InvokeResizeCommand {
    pub width: Option<LengthValue>,
    pub height: Option<LengthValue>,
}

#[derive(Clone, Copy, Debug, PartialEq, Eq, Structural)]
pub struct InvokeSizeCommand {
    pub width: Option<LengthValue>,
    pub height: Option<LengthValue>,
}

#[derive(Clone, Copy, Debug, PartialEq, Eq, Structural)]
pub struct InvokeSetTransparencyCommand {
    pub opacity: Option<OpacityValue>,
    pub opacity_delta: Option<OpacityDelta>,
}

/// The settings of a workspace that are to change; one that is absent stays.
#[derive(Debug, PartialEq, Eq)]
pub struct InvokeUpdateWorkspaceConfig {
    pub name: Option<String>,
    pub display_name: Option<String>,
    pub bind_to_monitor: Option<u32>,
    pub keep_alive: Option<bool>,
}

/// A copy of the text, where there is one.
fn clone_text(text: &Option<String>) -> (copy: Option<String>)
    ensures
        copy == *text,
{
    match text {
        Some(text) => Some(text.clone()),
        None => None,
    }
}

impl Clone for InvokeUpdateWorkspaceConfig {
    fn clone(&self) -> (copy: Self)
        ensures
            copy == *self,
    {
        InvokeUpdateWorkspaceConfig {
            name: clone_text(&self.name),
            display_name: clone_text(&self.display_name),
            bind_to_monitor: self.bind_to_monitor,
            keep_alive: self.keep_alive,
        }
    }
}

/// A command that a user binds to keys, writes in the configuration or sends
/// over IPC.
#[derive(Clone, Debug, PartialEq, Eq)]
pub enum InvokeCommand {
    AdjustBorders(InvokeAdjustBordersCommand),
    Close,
    Focus(InvokeFocusCommand),
    Ignore,
    Move(InvokeMoveCommand),
    MoveWorkspace { direction: Direction },
    Position(InvokePositionCommand),
    UpdateWorkspaceConfig { workspace: Option<String>, new_config: InvokeUpdateWorkspaceConfig },
    Resize(InvokeResizeCommand),
    SetFloating {
        centered: Option<bool>,
        shown_on_top: Option<bool>,
        x_pos: Option<i32>,
        y_pos: Option<i32>,
        width: Option<LengthValue>,
        height: Option<LengthValue>,
    },
    SetFullscreen { maximized: Option<bool>, shown_on_top: Option<bool> },
    SetMinimized,
    SetTiling,
    SetTitleBarVisibility { visibility: TitleBarVisibility },
    SetTransparency(InvokeSetTransparencyCommand),
    ShellExec { hide_window: bool, command: Vec<String> },
    Size(InvokeSizeCommand),
    ToggleFloating { centered: Option<bool>, shown_on_top: Option<bool> },
    ToggleFullscreen { maximized: Option<bool>, shown_on_top: Option<bool> },
    ToggleMinimized,
    ToggleTiling,
    ToggleTransparencyPin { opacity: Option<OpacityValue> },
    ToggleTilingDirection,
    SetTilingDirection { tiling_direction: TilingDirection },
    WmCycleFocus {
        omit_floating: bool,
        omit_fullscreen: bool,
        omit_minimized: bool,
        omit_tiling: bool,
    },
    WmDisableBindingMode { name: String },
    WmEnableBindingMode { name: String },
    WmExit,
    WmRedraw,
    WmReloadConfig,
    WmTogglePause,
}

} // verus!
