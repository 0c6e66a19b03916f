//! What each command asks for, and how it goes on from the replies.
use vstd::prelude::*;

use crate::call::{Action, CommandCall, Reply, UpdatedWindow};
use crate::command::{
    InvokeAdjustBordersCommand, InvokeCommand, InvokeFocusCommand, InvokeMoveCommand,
    InvokeSetTransparencyCommand, InvokeUpdateWorkspaceConfig,
};
use crate::config::{UserConfig, WindowEffectConfig};
use crate::dialogue::Dialogue;
use crate::error::WmError;
use crate::state::{Container, WmState};
use crate::values::{
    CornerStyle, FloatingStateConfig, FullscreenStateConfig, LengthUnit, LengthValue, Opacity,
    OpacityValue, Rect, RectDelta, WindowPositionTarget, WindowState,
};
use crate::workspace_target::WorkspaceTarget;

verus! {

/// What a command does: the calls that it asks for, and how it ends.
pub type CommandDialogue<E> = Dialogue<
    CommandCall<Seq<char>>,
    Reply<E>,
    Result<(), WmError<E>>,
>;

// ---------------------------------------------------------------------------
// Actions in a row.

/// Whether a command goes on although the action failed.
pub open spec fn tolerates_failure(action: Action) -> bool {
    action is SetCloaked || action is CloseWindow || action is SetTitleBarVisibility
        || action is SetTransparency || action is AdjustTransparency
}

/// Performs the actions one after the other, up to the first that fails.
pub open spec fn script<E>(actions: Seq<Action>) -> CommandDialogue<E>
    decreases actions.len(), 0int,
{
    if actions.len() == 0 {
        Dialogue::Return(Ok(()))
    } else {
        Dialogue::Ask(
            CommandCall::Act(actions[0]),
            after_action(tolerates_failure(actions[0]), actions.drop_first()),
        )
    }
}

/// Goes on with `rest` after an action.
pub open spec fn after_action<E>(tolerant: bool, rest: Seq<Action>) -> spec_fn(
    Reply<E>,
) -> CommandDialogue<E>
    decreases rest.len(), 1int,
{
    |reply: Reply<E>|
        match reply {
            Reply::Done => script(rest),
            Reply::Failed(error) => if tolerant {
                script(rest)
            } else {
                Dialogue::Return(Err(WmError::Host(error)))
            },
            _ => Dialogue::Return(Err(WmError::UnexpectedReply)),
        }
}

/// The action alone, or none.
pub open spec fn perhaps(action: Option<Action>) -> Seq<Action> {
    match action {
        Some(action) => seq![action],
        None => Seq::empty(),
    }
}

/// The action alone, if it is wanted.
pub open spec fn wanted(is_wanted: bool, action: Action) -> Seq<Action> {
    if is_wanted {
        seq![action]
    } else {
        Seq::empty()
    }
}

// ---------------------------------------------------------------------------
// What each command asks for.

/// The borders that a command sets. An edge that it leaves out gets none.
pub open spec fn border_delta(args: InvokeAdjustBordersCommand) -> RectDelta {
    let zero = LengthValue { amount_bits: 0, unit: LengthUnit::Pixel };
    RectDelta {
        left: args.left.unwrap_or(zero),
        top: args.top.unwrap_or(zero),
        right: args.right.unwrap_or(zero),
        bottom: args.bottom.unwrap_or(zero),
    }
}

/// Focus moves for each part of the command that is present, in this order.
pub open spec fn focus_actions(args: InvokeFocusCommand, origin: u64) -> Seq<Action> {
    perhaps(
        match args.direction {
            Some(direction) => Some(Action::FocusInDirection { origin, direction }),
            None => None,
        },
    ) + perhaps(
        match args.workspace_in_direction {
            Some(direction) => Some(
                Action::FocusWorkspace { target: WorkspaceTarget::Direction(direction) },
            ),
            None => None,
        },
    ) + perhaps(
        match args.container_id {
            Some(id) => Some(Action::FocusContainerById { id }),
            None => None,
        },
    ) + perhaps(
        match args.workspace {
            Some(name) => Some(Action::FocusWorkspace { target: WorkspaceTarget::Name(name) }),
            None => None,
        },
    ) + perhaps(
        match args.workspace_on_monitor {
            Some(name) => Some(
                Action::FocusWorkspace { target: WorkspaceTarget::NameOnMonitor(name) },
            ),
            None => None,
        },
    ) + perhaps(
        match args.monitor {
            Some(index) => Some(Action::FocusMonitor { index }),
            None => None,
        },
    ) + wanted(
        args.next_active_workspace,
        Action::FocusWorkspace { target: WorkspaceTarget::NextActive },
    ) + wanted(
        args.prev_active_workspace,
        Action::FocusWorkspace { target: WorkspaceTarget::PreviousActive },
    ) + wanted(args.next_workspace, Action::FocusWorkspace { target: WorkspaceTarget::Next })
        + wanted(args.prev_workspace, Action::FocusWorkspace { target: WorkspaceTarget::Previous })
        + wanted(args.recent_workspace, Action::FocusWorkspace { target: WorkspaceTarget::Recent })
        + wanted(
        args.next_active_workspace_on_monitor,
        Action::FocusWorkspace { target: WorkspaceTarget::NextActiveInMonitor },
    ) + wanted(
        args.prev_active_workspace_on_monitor,
        Action::FocusWorkspace { target: WorkspaceTarget::PreviousActiveInMonitor },
    )
}

/// The window moves for each part of the command that is present, in this
/// order.
pub open spec fn move_actions(args: InvokeMoveCommand, window: u64) -> Seq<Action> {
    perhaps(
        match args.direction {
            Some(direction) => Some(Action::MoveWindowInDirection { window, direction }),
            None => None,
        },
    ) + perhaps(
        match args.workspace_in_direction {
            Some(direction) => Some(
                Action::MoveWindowToWorkspace {
                    window,
                    target: WorkspaceTarget::Direction(direction),
                },
            ),
            None => None,
        },
    ) + perhaps(
        match args.workspace {
            Some(name) => Some(
                Action::MoveWindowToWorkspace { window, target: WorkspaceTarget::Name(name) },
            ),
            None => None,
        },
    ) + perhaps(
        match args.workspace_on_monitor {
            Some(name) => Some(
                Action::MoveWindowToWorkspace {
                    window,
                    target: WorkspaceTarget::NameOnMonitor(name),
                },
            ),
            None => None,
        },
    ) + wanted(
        args.next_active_workspace,
        Action::MoveWindowToWorkspace { window, target: WorkspaceTarget::NextActive },
    ) + wanted(
        args.prev_active_workspace,
        Action::MoveWindowToWorkspace { window, target: WorkspaceTarget::PreviousActive },
    ) + wanted(
        args.next_workspace,
        Action::MoveWindowToWorkspace { window, target: WorkspaceTarget::Next },
    ) + wanted(
        args.prev_workspace,
        Action::MoveWindowToWorkspace { window, target: WorkspaceTarget::Previous },
    ) + wanted(
        args.recent_workspace,
        Action::MoveWindowToWorkspace { window, target: WorkspaceTarget::Recent },
    ) + wanted(
        args.next_active_workspace_on_monitor,
        Action::MoveWindowToWorkspace { window, target: WorkspaceTarget::NextActiveInMonitor },
    ) + wanted(
        args.prev_active_workspace_on_monitor,
        Action::MoveWindowToWorkspace { window, target: WorkspaceTarget::PreviousActiveInMonitor },
    )
}

/// The opacity is set before it is adjusted.
pub open spec fn transparency_actions(args: InvokeSetTransparencyCommand, window: u64) -> Seq<
    Action,
> {
    perhaps(
        match args.opacity {
            Some(opacity) => Some(
                Action::SetTransparency { window, opacity: Opacity::Value(opacity) },
            ),
            None => None,
        },
    ) + perhaps(
        match args.opacity_delta {
            Some(delta) => Some(Action::AdjustTransparency { window, delta }),
            None => None,
        },
    )
}

/// A pin at the given opacity, or fully opaque if it is omitted, overrides the
/// transparency effects until it is taken off. The effects are then brought
/// up to date, so that the window goes back to the configured transparency.
pub open spec fn transparency_pin_actions(
    is_pinned: bool,
    opacity: Option<OpacityValue>,
    window: u64,
) -> Seq<Action> {
    if is_pinned {
        seq![Action::SetTransparencyPin { window, pin: None }, Action::QueueAllEffectsUpdate]
    } else {
        let opacity = match opacity {
            Some(opacity) => Opacity::Value(opacity),
            None => Opacity::Alpha(u8::MAX),
        };
        seq![
            Action::SetTransparency { window, opacity },
            Action::SetTransparencyPin { window, pin: Some(opacity) },
        ]
    }
}

/// The words of a command line, with a space between two words.
pub open spec fn joined(words: Seq<String>) -> Seq<char>
    decreases words.len(),
{
    if words.len() == 0 {
        Seq::empty()
    } else if words.len() == 1 {
        words[0]@
    } else {
        joined(words.drop_last()) + " "@ + words.last()@
    }
}

/// The size and the place that a window is to have once it floats.
#[derive(Clone, Copy, Debug, PartialEq, Eq, Structural)]
pub struct Placement {
    pub centered: bool,
    pub x_pos: Option<i32>,
    pub y_pos: Option<i32>,
    pub width: Option<LengthValue>,
    pub height: Option<LengthValue>,
}

/// Size and position are set only on a window that the user has not placed by
/// hand: the size first, then the position. To center the window goes before
/// its coordinates.
pub open spec fn placement_actions(window: UpdatedWindow, placement: Placement) -> Seq<Action> {
    if window.has_custom_floating_placement {
        Seq::empty()
    } else {
        wanted(
            placement.width is Some || placement.height is Some,
            Action::SetWindowSize {
                window: window.node,
                width: placement.width,
                height: placement.height,
            },
        ) + perhaps(
            if placement.centered {
                Some(
                    Action::SetWindowPosition {
                        window: window.node,
                        target: WindowPositionTarget::Centered,
                    },
                )
            } else if placement.x_pos is Some || placement.y_pos is Some {
                Some(
                    Action::SetWindowPosition {
                        window: window.node,
                        target: WindowPositionTarget::Coordinates(placement.x_pos, placement.y_pos),
                    },
                )
            } else {
                None
            },
        )
    }
}

/// Puts the window in a state, then places it.
pub open spec fn change_state<E>(
    window: u64,
    state: WindowState,
    placement: Option<Placement>,
) -> CommandDialogue<E> {
    Dialogue::Ask(
        CommandCall::Act(Action::UpdateWindowState { window, state }),
        after_state_change(placement),
    )
}

pub open spec fn after_state_change<E>(placement: Option<Placement>) -> spec_fn(
    Reply<E>,
) -> CommandDialogue<E> {
    |reply: Reply<E>|
        match reply {
            Reply::Window(window) => match placement {
                Some(placement) => script(placement_actions(window, placement)),
                None => Dialogue::Return(Ok(())),
            },
            Reply::Failed(error) => Dialogue::Return(Err(WmError::Host(error))),
            _ => Dialogue::Return(Err(WmError::UnexpectedReply)),
        }
}

/// Puts the window in the state that toggling `target` leads to, then places
/// it.
pub open spec fn toggle_state<E>(
    window: u64,
    target: WindowState,
    placement: Option<Placement>,
) -> CommandDialogue<E> {
    Dialogue::Ask(
        CommandCall::Act(Action::ToggledState { window, target }),
        after_toggled_state(window, placement),
    )
}

pub open spec fn after_toggled_state<E>(window: u64, placement: Option<Placement>) -> spec_fn(
    Reply<E>,
) -> CommandDialogue<E> {
    |reply: Reply<E>|
        match reply {
            Reply::State(state) => change_state(window, state, placement),
            Reply::Failed(error) => Dialogue::Return(Err(WmError::Host(error))),
            _ => Dialogue::Return(Err(WmError::UnexpectedReply)),
        }
}

/// The floating state that a command asks for, over the configured defaults.
pub open spec fn floating_state(
    centered: Option<bool>,
    shown_on_top: Option<bool>,
    defaults: FloatingStateConfig,
) -> WindowState {
    WindowState::Floating(
        FloatingStateConfig {
            centered: centered.unwrap_or(defaults.centered),
            shown_on_top: shown_on_top.unwrap_or(defaults.shown_on_top),
            transparency: defaults.transparency,
        },
    )
}

/// The fullscreen state that a command asks for, over the configured defaults.
pub open spec fn fullscreen_state(
    maximized: Option<bool>,
    shown_on_top: Option<bool>,
    defaults: FullscreenStateConfig,
) -> WindowState {
    WindowState::Fullscreen(
        FullscreenStateConfig {
            maximized: maximized.unwrap_or(defaults.maximized),
            shown_on_top: shown_on_top.unwrap_or(defaults.shown_on_top),
            transparency: defaults.transparency,
        },
    )
}

/// Gives the workspace of that name new settings.
pub open spec fn after_workspace_lookup<E>(new_config: InvokeUpdateWorkspaceConfig) -> spec_fn(
    Reply<E>,
) -> CommandDialogue<E> {
    |reply: Reply<E>|
        match reply {
            Reply::Workspace(Some(workspace)) => script(
                seq![Action::UpdateWorkspaceConfig { workspace, new_config }],
            ),
            Reply::Workspace(None) => Dialogue::Return(Err(WmError::WorkspaceNotFound)),
            Reply::Failed(error) => Dialogue::Return(Err(WmError::Host(error))),
            _ => Dialogue::Return(Err(WmError::UnexpectedReply)),
        }
}

// ---------------------------------------------------------------------------
// Closing a window.

/// How the surrogate of a closing window is drawn.
#[derive(Clone, Copy, Debug, PartialEq, Eq, Structural)]
pub struct SurrogateLook {
    pub opacity: u8,
    pub corner_style: CornerStyle,
}

/// The effects of the window: those of the focused window where it has focus.
/// Where nothing has focus, the focus counts as on the nil ID.
pub open spec fn effects_of(
    window: Container,
    state: WmState,
    config: UserConfig,
) -> WindowEffectConfig {
    let focused_id = match state.focused_container {
        Some(focused) => focused.id.value,
        None => 0,
    };
    if window.id.value == focused_id {
        config.focused_window
    } else {
        config.other_windows
    }
}

/// The surrogate is drawn with the effects that are enabled, otherwise opaque
/// and with the default corners.
pub open spec fn surrogate_look(effects: WindowEffectConfig) -> SurrogateLook {
    SurrogateLook {
        opacity: if effects.transparency.enabled {
            effects.transparency.alpha
        } else {
            u8::MAX
        },
        corner_style: if effects.corner_style.enabled {
            effects.corner_style.style
        } else {
            CornerStyle::Default
        },
    }
}

/// Closes the window without an animation. A failure is not the command's.
pub open spec fn close_immediately<E>(window: Container) -> CommandDialogue<E> {
    script(seq![Action::CloseWindow { window: window.node }])
}

/// Closes the window behind a surrogate that runs the animation. Where the
/// window's rectangle cannot be had, or no surrogate was made, the window is
/// closed without an animation.
///
/// The surrogate is up before the window is cloaked, and the window is cloaked
/// before it is detached: its siblings then reflow beside the animation, and
/// nothing shows through in between.
pub open spec fn close_animated<E>(window: Container, look: SurrogateLook) -> CommandDialogue<E> {
    Dialogue::Ask(
        CommandCall::Act(Action::WindowRect { window: window.node }),
        after_close_rect(window, look),
    )
}

pub open spec fn after_close_rect<E>(window: Container, look: SurrogateLook) -> spec_fn(
    Reply<E>,
) -> CommandDialogue<E> {
    |reply: Reply<E>|
        match reply {
            Reply::Rect(rect) => Dialogue::Ask(
                CommandCall::Act(Action::TotalBorderDelta { window: window.node }),
                after_close_delta(window, look, rect),
            ),
            Reply::Failed(_) => close_immediately(window),
            _ => Dialogue::Return(Err(WmError::UnexpectedReply)),
        }
}

pub open spec fn after_close_delta<E>(
    window: Container,
    look: SurrogateLook,
    rect: Rect,
) -> spec_fn(Reply<E>) -> CommandDialogue<E> {
    |reply: Reply<E>|
        match reply {
            Reply::Delta(delta) => Dialogue::Ask(
                CommandCall::Act(Action::ApplyDelta { rect, delta }),
                after_close_frame(window, look),
            ),
            Reply::Failed(_) => close_immediately(window),
            _ => Dialogue::Return(Err(WmError::UnexpectedReply)),
        }
}

pub open spec fn after_close_frame<E>(window: Container, look: SurrogateLook) -> spec_fn(
    Reply<E>,
) -> CommandDialogue<E> {
    |reply: Reply<E>|
        match reply {
            Reply::Rect(frame) => Dialogue::Ask(
                CommandCall::Act(
                    Action::StartCloseAnimation {
                        window: window.node,
                        window_id: window.id,
                        rect: frame,
                        opacity: look.opacity,
                        corner_style: look.corner_style,
                    },
                ),
                after_close_start(window),
            ),
            Reply::Failed(error) => Dialogue::Return(Err(WmError::Host(error))),
            _ => Dialogue::Return(Err(WmError::UnexpectedReply)),
        }
}

pub open spec fn after_close_start<E>(window: Container) -> spec_fn(
    Reply<E>,
) -> CommandDialogue<E> {
    |reply: Reply<E>|
        match reply {
            Reply::Done => Dialogue::Ask(
                CommandCall::Act(Action::HasCloseAnimation { window_id: window.id }),
                after_close_check(window),
            ),
            Reply::Failed(error) => Dialogue::Return(Err(WmError::Host(error))),
            _ => Dialogue::Return(Err(WmError::UnexpectedReply)),
        }
}

pub open spec fn after_close_check<E>(window: Container) -> spec_fn(
    Reply<E>,
) -> CommandDialogue<E> {
    |reply: Reply<E>|
        match reply {
            Reply::Flag(is_animated) => if is_animated {
                script(
                    seq![
                        Action::SetCloaked { window: window.node, cloaked: true },
                        Action::DetachWindowForClose { window: window.node },
                    ],
                )
            } else {
                close_immediately(window)
            },
            Reply::Failed(error) => Dialogue::Return(Err(WmError::Host(error))),
            _ => Dialogue::Return(Err(WmError::UnexpectedReply)),
        }
}

// ---------------------------------------------------------------------------
// The command as a whole.

/// Whether only a window can be the subject of the command's work.
pub open spec fn is_window_command(command: InvokeCommand) -> bool {
    match command {
        InvokeCommand::Focus(_) => false,
        InvokeCommand::MoveWorkspace { .. } => false,
        InvokeCommand::UpdateWorkspaceConfig { .. } => false,
        InvokeCommand::ShellExec { .. } => false,
        InvokeCommand::ToggleTilingDirection => false,
        InvokeCommand::SetTilingDirection { .. } => false,
        InvokeCommand::WmCycleFocus { .. } => false,
        InvokeCommand::WmDisableBindingMode { .. } => false,
        InvokeCommand::WmEnableBindingMode { .. } => false,
        InvokeCommand::WmExit => false,
        InvokeCommand::WmRedraw => false,
        InvokeCommand::WmReloadConfig => false,
        InvokeCommand::WmTogglePause => false,
        _ => true,
    }
}

/// What only a window can do. With another container it does nothing.
pub open spec fn on_window<E>(
    subject: Container,
    dialogue: CommandDialogue<E>,
) -> CommandDialogue<E> {
    if subject.facts.window is Some {
        dialogue
    } else {
        Dialogue::Return(Ok(()))
    }
}

/// What only a window on Windows can do. Elsewhere it does nothing.
pub open spec fn on_windows_window<E>(
    subject: Container,
    state: WmState,
    dialogue: CommandDialogue<E>,
) -> CommandDialogue<E> {
    if state.platform is Windows {
        on_window(subject, dialogue)
    } else {
        Dialogue::Return(Ok(()))
    }
}

/// What the command does with a subject that is in the tree.
pub open spec fn command_body<E>(
    command: InvokeCommand,
    subject: Container,
    state: WmState,
    config: UserConfig,
) -> CommandDialogue<E> {
    let node = subject.node;
    match command {
        InvokeCommand::AdjustBorders(args) => on_window(
            subject,
            script(
                seq![
                    Action::SetBorderDelta { window: node, delta: border_delta(args) },
                    Action::QueueRedraw { container: node },
                ],
            ),
        ),
        InvokeCommand::Close => on_window(
            subject,
            if state.platform is Windows && config.window_close_animation {
                close_animated(subject, surrogate_look(effects_of(subject, state, config)))
            } else {
                close_immediately(subject)
            },
        ),
        InvokeCommand::Focus(args) => script(focus_actions(args, node)),
        InvokeCommand::Ignore => on_window(
            subject,
            script(seq![Action::IgnoreWindow { window: node }]),
        ),
        InvokeCommand::Move(args) => on_window(subject, script(move_actions(args, node))),
        InvokeCommand::MoveWorkspace { direction } => match subject.facts.workspace {
            Some(workspace) => script(
                seq![Action::MoveWorkspaceInDirection { workspace, direction }],
            ),
            None => Dialogue::Return(Err(WmError::NoWorkspace)),
        },
        InvokeCommand::Position(args) => on_window(
            subject,
            script(
                seq![
                    Action::SetWindowPosition {
                        window: node,
                        target: if args.centered {
                            WindowPositionTarget::Centered
                        } else {
                            WindowPositionTarget::Coordinates(args.x_pos, args.y_pos)
                        },
                    },
                ],
            ),
        ),
        InvokeCommand::UpdateWorkspaceConfig { workspace: Some(name), new_config } => Dialogue::Ask(
            CommandCall::Act(Action::WorkspaceByName { name }),
            after_workspace_lookup(new_config),
        ),
        InvokeCommand::UpdateWorkspaceConfig { workspace: None, new_config } => match subject.facts
            .workspace {
            Some(workspace) => script(
                seq![Action::UpdateWorkspaceConfig { workspace, new_config }],
            ),
            None => Dialogue::Return(Err(WmError::NoWorkspace)),
        },
        InvokeCommand::Resize(args) => on_window(
            subject,
            script(
                seq![
                    Action::ResizeWindow { window: node, width: args.width, height: args.height },
                ],
            ),
        ),
        InvokeCommand::SetFloating {
            centered,
            shown_on_top,
            x_pos,
            y_pos,
            width,
            height,
        } => on_window(
            subject,
            change_state(
                node,
                floating_state(centered, shown_on_top, config.floating_defaults),
                Some(
                    Placement {
                        centered: centered.unwrap_or(config.floating_defaults.centered),
                        x_pos,
                        y_pos,
                        width,
                        height,
                    },
                ),
            ),
        ),
        InvokeCommand::SetFullscreen { maximized, shown_on_top } => on_window(
            subject,
            change_state(
                node,
                fullscreen_state(maximized, shown_on_top, config.fullscreen_defaults),
                None,
            ),
        ),
        InvokeCommand::SetMinimized => on_window(
            subject,
            change_state(node, WindowState::Minimized, None),
        ),
        InvokeCommand::SetTiling => on_window(
            subject,
            change_state(node, WindowState::Tiling, None),
        ),
        InvokeCommand::SetTitleBarVisibility { visibility } => on_windows_window(
            subject,
            state,
            script(
                seq![
                    Action::SetTitleBarVisibility { window: node, visible: visibility is Shown },
                ],
            ),
        ),
        InvokeCommand::SetTransparency(args) => on_windows_window(
            subject,
            state,
            script(transparency_actions(args, node)),
        ),
        InvokeCommand::ShellExec { hide_window, command } => Dialogue::Ask(
            CommandCall::ShellExec { command: joined(command@), hide_window },
            after_action(false, Seq::empty()),
        ),
        InvokeCommand::Size(args) => on_window(
            subject,
            script(
                seq![
                    Action::SetWindowSize { window: node, width: args.width, height: args.height },
                ],
            ),
        ),
        InvokeCommand::ToggleFloating { centered, shown_on_top } => on_window(
            subject,
            toggle_state(
                node,
                floating_state(centered, shown_on_top, config.floating_defaults),
                Some(
                    Placement {
                        centered: centered.unwrap_or(config.floating_defaults.centered),
                        x_pos: None,
                        y_pos: None,
                        width: None,
                        height: None,
                    },
                ),
            ),
        ),
        InvokeCommand::ToggleFullscreen { maximized, shown_on_top } => on_window(
            subject,
            toggle_state(
                node,
                fullscreen_state(maximized, shown_on_top, config.fullscreen_defaults),
                None,
            ),
        ),
        InvokeCommand::ToggleMinimized => on_window(
            subject,
            toggle_state(node, WindowState::Minimized, None),
        ),
        InvokeCommand::ToggleTiling => on_window(
            subject,
            toggle_state(node, WindowState::Tiling, None),
        ),
        InvokeCommand::ToggleTransparencyPin { opacity } => on_windows_window(
            subject,
            state,
            script(
                transparency_pin_actions(
                    subject.facts.window->0.is_transparency_pinned,
                    opacity,
                    node,
                ),
            ),
        ),
        InvokeCommand::ToggleTilingDirection => script(
            seq![Action::ToggleTilingDirection { container: node }],
        ),
        InvokeCommand::SetTilingDirection { tiling_direction } => script(
            seq![Action::SetTilingDirection { container: node, direction: tiling_direction }],
        ),
        InvokeCommand::WmCycleFocus {
            omit_floating,
            omit_fullscreen,
            omit_minimized,
            omit_tiling,
        } => script(
            seq![
                Action::CycleFocus { omit_floating, omit_fullscreen, omit_minimized, omit_tiling },
            ],
        ),
        InvokeCommand::WmDisableBindingMode { name } => script(
            seq![Action::DisableBindingMode { name }],
        ),
        InvokeCommand::WmEnableBindingMode { name } => script(
            seq![Action::EnableBindingMode { name }],
        ),
        InvokeCommand::WmExit => script(seq![Action::EmitExit]),
        InvokeCommand::WmRedraw => script(
            seq![Action::QueueRedraw { container: state.root_node }],
        ),
        InvokeCommand::WmReloadConfig => script(seq![Action::ReloadConfig]),
        InvokeCommand::WmTogglePause => script(seq![Action::TogglePause]),
    }
}

/// What the command does. A paused window manager does nothing but toggle the
/// pause, and no command runs with a container that is out of the tree.
pub open spec fn run_command_dialogue<E>(
    command: InvokeCommand,
    subject: Container,
    state: WmState,
    config: UserConfig,
) -> CommandDialogue<E> {
    if state.is_paused && !(command is WmTogglePause) {
        Dialogue::Return(Ok(()))
    } else if subject.facts.is_detached {
        Dialogue::Return(Err(WmError::SubjectDetached))
    } else {
        command_body(command, subject, state, config)
    }
}

} // verus!
