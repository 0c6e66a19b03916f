//! The calls that the window manager asks for, and the replies to them.
use vstd::prelude::*;

use crate::command::InvokeUpdateWorkspaceConfig;
use crate::config::UserConfig;
use crate::error::WmError;
use crate::event::KeybindingConfig;
use crate::state::{Container, ContainerFacts, WmState};
use crate::values::{
    ContainerId, CornerStyle, LengthValue, Opacity, OpacityDelta, Rect, RectDelta, TilingDirection,
    WindowPositionTarget, WindowState,
};
use crate::workspace_target::{Direction, WorkspaceTarget};

verus! {

/// What a command asks for. Windows, workspaces and other containers are named
/// by their nodes. Each is answered by `Reply::Done`, or by `Reply::Failed`
/// where it can fail, unless it says otherwise.
#[derive(Clone, Debug, PartialEq, Eq)]
pub enum Action {
    SetBorderDelta { window: u64, delta: RectDelta },
    QueueRedraw { container: u64 },
    QueueAllEffectsUpdate,
    /// The window's rectangle: `Reply::Rect`.
    WindowRect { window: u64 },
    /// The window's border delta in total: `Reply::Delta`.
    TotalBorderDelta { window: u64 },
    /// The rectangle with the delta applied to it: `Reply::Rect`.
    ApplyDelta { rect: Rect, delta: RectDelta },
    /// Draws a surrogate over the window and lets it run the close animation.
    StartCloseAnimation {
        window: u64,
        window_id: ContainerId,
        rect: Rect,
        opacity: u8,
        corner_style: CornerStyle,
    },
    /// Whether the window has a close animation: `Reply::Flag`.
    HasCloseAnimation { window_id: ContainerId },
    SetCloaked { window: u64, cloaked: bool },
    DetachWindowForClose { window: u64 },
    CloseWindow { window: u64 },
    FocusInDirection { origin: u64, direction: Direction },
    FocusWorkspace { target: WorkspaceTarget },
    FocusContainerById { id: ContainerId },
    FocusMonitor { index: usize },
    IgnoreWindow { window: u64 },
    MoveWindowInDirection { window: u64, direction: Direction },
    MoveWindowToWorkspace { window: u64, target: WorkspaceTarget },
    MoveWorkspaceInDirection { workspace: u64, direction: Direction },
    SetWindowPosition { window: u64, target: WindowPositionTarget },
    /// The node of the workspace of that name: `Reply::Workspace`.
    WorkspaceByName { name: String },
    UpdateWorkspaceConfig { workspace: u64, new_config: InvokeUpdateWorkspaceConfig },
    ResizeWindow { window: u64, width: Option<LengthValue>, height: Option<LengthValue> },
    SetWindowSize { window: u64, width: Option<LengthValue>, height: Option<LengthValue> },
    /// Puts the window in a state: `Reply::Window`, or `Reply::Failed`.
    UpdateWindowState { window: u64, state: WindowState },
    /// The state that the window goes to when `target` is toggled:
    /// `Reply::State`.
    ToggledState { window: u64, target: WindowState },
    SetTitleBarVisibility { window: u64, visible: bool },
    SetTransparency { window: u64, opacity: Opacity },
    AdjustTransparency { window: u64, delta: OpacityDelta },
    SetTransparencyPin { window: u64, pin: Option<Opacity> },
    ToggleTilingDirection { container: u64 },
    SetTilingDirection { container: u64, direction: TilingDirection },
    CycleFocus {
        omit_floating: bool,
        omit_fullscreen: bool,
        omit_minimized: bool,
        omit_tiling: bool,
    },
    DisableBindingMode { name: String },
    EnableBindingMode { name: String },
    EmitExit,
    ReloadConfig,
    /// Negates the pause: from `Reply::Done` on, the window manager is paused
    /// exactly if it was not before.
    TogglePause,
}

/// A call that a command asks for. `Text` is a `String` in a call that is to
/// be made, and its characters in a contract.
#[derive(Clone, Debug, PartialEq, Eq)]
pub enum CommandCall<Text> {
    Act(Action),
    /// Runs a program.
    ShellExec { command: Text, hide_window: bool },
}

impl View for CommandCall<String> {
    type V = CommandCall<Seq<char>>;

    open spec fn view(&self) -> CommandCall<Seq<char>> {
        match *self {
            CommandCall::Act(action) => CommandCall::Act(action),
            CommandCall::ShellExec { command, hide_window } => CommandCall::ShellExec {
                command: command@,
                hide_window,
            },
        }
    }
}

/// The handler that a platform event is for.
#[derive(Clone, Copy, Debug, PartialEq, Eq, Structural)]
pub enum Handler {
    DisplaySettingsChanged,
    MouseMove { ticket: u64 },
    WindowFocused { window: u64 },
    WindowShown { window: u64 },
    WindowHidden { window: u64 },
    WindowMovedOrResized { window: u64, is_interactive_start: bool, is_interactive_end: bool },
    WindowMinimized { window: u64 },
    WindowMinimizeEnded { window: u64 },
    WindowTitleChanged { window: u64 },
    WindowDestroyed { window_id: u64 },
}

/// What the window manager asks for around the commands. Each is answered by
/// `Reply::Done`, or by `Reply::Failed` where it can fail, unless it says
/// otherwise.
#[derive(Clone, Copy, Debug, PartialEq, Eq, Structural)]
pub enum ManagerCall {
    /// Fills the state with the monitors, workspaces and windows that there
    /// are.
    Populate,
    /// The container of that ID in the tree: `Reply::Container`.
    ContainerById { id: ContainerId },
    /// What is now known of the container at that node, in the tree or out of
    /// it: `Reply::Facts`.
    Inspect { node: u64 },
    /// The keybindings that are active in the current binding modes:
    /// `Reply::Keybindings`.
    ActiveKeybindings { is_paused: bool },
    Handle(Handler),
    UpdateAnimations,
    /// Tells the platform of the changes that are queued.
    PlatformSync,
    EnsureTimerRunning,
    EmitApplicationExiting,
    /// Ends the pause: from its reply on, the window manager is not paused,
    /// whether it was before or not.
    Unpause,
    /// Takes the next event from the queue of events: `Reply::Event`.
    NextEvent,
    /// Hands an event that was taken from the queue to the IPC server.
    PublishEvent { ticket: u64 },
}

/// A call that the window manager asks for.
#[derive(Clone, Debug, PartialEq, Eq)]
pub enum Call<Text> {
    Command(CommandCall<Text>),
    Manage(ManagerCall),
}

impl View for Call<String> {
    type V = Call<Seq<char>>;

    open spec fn view(&self) -> Call<Seq<char>> {
        match *self {
            Call::Command(call) => Call::Command(call@),
            Call::Manage(call) => Call::Manage(call),
        }
    }
}

/// What an exiting window manager asks for.
#[derive(Clone, Debug, PartialEq, Eq)]
pub enum CleanupCall<Text, E> {
    Make(Call<Text>),
    /// Warns that the shutdown commands failed, and why. The exit goes on from
    /// any reply.
    WarnOfShutdown(WmError<E>),
}

impl<E> View for CleanupCall<String, E> {
    type V = CleanupCall<Seq<char>, E>;

    open spec fn view(&self) -> CleanupCall<Seq<char>, E> {
        match *self {
            CleanupCall::Make(call) => CleanupCall::Make(call@),
            CleanupCall::WarnOfShutdown(error) => CleanupCall::WarnOfShutdown(error),
        }
    }
}

/// A window after a change of its state.
#[derive(Clone, Copy, Debug, PartialEq, Eq, Structural)]
pub struct UpdatedWindow {
    pub node: u64,
    /// Whether the user has placed the floating window by hand.
    pub has_custom_floating_placement: bool,
}

/// The reply to a call.
#[derive(Clone, Debug, PartialEq, Eq)]
pub enum Reply<E> {
    Done,
    Failed(E),
    Flag(bool),
    Rect(Rect),
    Delta(RectDelta),
    State(WindowState),
    Window(UpdatedWindow),
    Workspace(Option<u64>),
    Container(Option<Container>),
    Facts(ContainerFacts),
    Keybindings(Vec<KeybindingConfig>),
    /// The ticket of an event, or nothing where no event is left.
    Event(Option<u64>),
}

/// A reply, with the state and the configuration as they are when it comes.
pub struct Turn<E> {
    pub reply: Reply<E>,
    pub state: WmState,
    pub config: UserConfig,
}

/// Where an operation stands: it waits for a call to be made and its reply
/// handed to `R`, or it has ended.
#[derive(Clone, Debug, PartialEq, Eq)]
pub enum Step<C, R, T> {
    Call(C, R),
    Finished(T),
}

} // verus!
