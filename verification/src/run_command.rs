//! Running one command, one call at a time.
use vstd::prelude::*;
use vstd::string::StringExecFns;

use crate::call::{Action, CommandCall, Reply, Step, UpdatedWindow};
use crate::command::{
    InvokeAdjustBordersCommand, InvokeCommand, InvokeFocusCommand, InvokeMoveCommand,
    InvokeSetTransparencyCommand, InvokeUpdateWorkspaceConfig,
};
use crate::command_dialogue;
use crate::command_dialogue::{CommandDialogue, Placement, SurrogateLook};
use crate::config::{UserConfig, WindowEffectConfig};
use crate::dialogue::Dialogue;
use crate::error::WmError;
use crate::state::{Container, Platform, WmState};
use crate::uuid_text::default_uuid;
use crate::values::{
    CornerStyle, FloatingStateConfig, FullscreenStateConfig, LengthValue, Opacity, OpacityValue,
    Rect, RectDelta, TitleBarVisibility, WindowPositionTarget, WindowState,
};
use crate::wm::WindowManager;
use crate::workspace_target::WorkspaceTarget;

verus! {

/// Where a command stands.
pub type CommandStep<E> = Step<CommandCall<String>, CommandRun, Result<(), WmError<E>>>;

/// What is left of a command that stands at `step`.
pub open spec fn command_step_dialogue<E>(step: CommandStep<E>) -> CommandDialogue<E> {
    match step {
        Step::Call(call, run) => Dialogue::Ask(call@, run.resumption()),
        Step::Finished(result) => Dialogue::Return(result),
    }
}

/// What a command waits for, and what it still needs then.
#[derive(Clone, Debug, PartialEq, Eq)]
enum Stage {
    Acting { tolerant: bool, rest: Vec<Action> },
    ChangingState { placement: Option<Placement> },
    TogglingState { window: u64, placement: Option<Placement> },
    FindingWorkspace { new_config: InvokeUpdateWorkspaceConfig },
    ClosingRect { window: Container, look: SurrogateLook },
    ClosingDelta { window: Container, look: SurrogateLook, rect: Rect },
    ClosingFrame { window: Container, look: SurrogateLook },
    ClosingStart { window: Container },
    ClosingCheck { window: Container },
}

/// A command that waits for the reply to its last call.
#[derive(Clone, Debug, PartialEq, Eq)]
pub struct CommandRun {
    stage: Stage,
}

impl CommandRun {
    /// How the command goes on from the reply.
    pub closed spec fn resumption<E>(self) -> spec_fn(Reply<E>) -> CommandDialogue<E> {
        match self.stage {
            Stage::Acting { tolerant, rest } => command_dialogue::after_action(tolerant, rest@),
            Stage::ChangingState { placement } => command_dialogue::after_state_change(placement),
            Stage::TogglingState { window, placement } => command_dialogue::after_toggled_state(
                window,
                placement,
            ),
            Stage::FindingWorkspace { new_config } => command_dialogue::after_workspace_lookup(
                new_config,
            ),
            Stage::ClosingRect { window, look } => command_dialogue::after_close_rect(window, look),
            Stage::ClosingDelta { window, look, rect } => command_dialogue::after_close_delta(
                window,
                look,
                rect,
            ),
            Stage::ClosingFrame { window, look } => command_dialogue::after_close_frame(
                window,
                look,
            ),
            Stage::ClosingStart { window } => command_dialogue::after_close_start(window),
            Stage::ClosingCheck { window } => command_dialogue::after_close_check(window),
        }
    }

    /// Hands the reply to the command.
    pub fn resume<E>(self, reply: Reply<E>) -> (step: CommandStep<E>)
        ensures
            command_step_dialogue(step) == self.resumption::<E>()(reply),
    {
        match self.stage {
            Stage::Acting { tolerant, rest } => match reply {
                Reply::Done => act_in_row(rest),
                Reply::Failed(error) => if tolerant {
                    act_in_row(rest)
                } else {
                    Step::Finished(Err(WmError::Host(error)))
                },
                _ => Step::Finished(Err(WmError::UnexpectedReply)),
            },
            Stage::ChangingState { placement } => match reply {
                Reply::Window(window) => match placement {
                    Some(placement) => act_in_row(place_window(window, placement)),
                    None => Step::Finished(Ok(())),
                },
                Reply::Failed(error) => Step::Finished(Err(WmError::Host(error))),
                _ => Step::Finished(Err(WmError::UnexpectedReply)),
            },
            Stage::TogglingState { window, placement } => match reply {
                Reply::State(state) => change_state(window, state, placement),
                Reply::Failed(error) => Step::Finished(Err(WmError::Host(error))),
                _ => Step::Finished(Err(WmError::UnexpectedReply)),
            },
            Stage::FindingWorkspace { new_config } => match reply {
                Reply::Workspace(Some(workspace)) => act(
                    Action::UpdateWorkspaceConfig { workspace, new_config },
                ),
                Reply::Workspace(None) => Step::Finished(Err(WmError::WorkspaceNotFound)),
                Reply::Failed(error) => Step::Finished(Err(WmError::Host(error))),
                _ => Step::Finished(Err(WmError::UnexpectedReply)),
            },
            Stage::ClosingRect { window, look } => match reply {
                Reply::Rect(rect) => Step::Call(
                    CommandCall::Act(Action::TotalBorderDelta { window: window.node }),
                    CommandRun { stage: Stage::ClosingDelta { window, look, rect } },
                ),
                Reply::Failed(_) => close_immediately(window),
                _ => Step::Finished(Err(WmError::UnexpectedReply)),
            },
            Stage::ClosingDelta { window, look, rect } => match reply {
                Reply::Delta(delta) => Step::Call(
                    CommandCall::Act(Action::ApplyDelta { rect, delta }),
                    CommandRun { stage: Stage::ClosingFrame { window, look } },
                ),
                Reply::Failed(_) => close_immediately(window),
                _ => Step::Finished(Err(WmError::UnexpectedReply)),
            },
            Stage::ClosingFrame { window, look } => match reply {
                Reply::Rect(frame) => Step::Call(
                    CommandCall::Act(
                        Action::StartCloseAnimation {
                            window: window.node,
                            window_id: window.id,
                            rect: frame,
                            opacity: look.opacity,
                            corner_style: look.corner_style,
                        },
                    ),
                    CommandRun { stage: Stage::ClosingStart { window } },
                ),
                Reply::Failed(error) => Step::Finished(Err(WmError::Host(error))),
                _ => Step::Finished(Err(WmError::UnexpectedReply)),
            },
            Stage::ClosingStart { window } => match reply {
                Reply::Done => Step::Call(
                    CommandCall::Act(Action::HasCloseAnimation { window_id: window.id }),
                    CommandRun { stage: Stage::ClosingCheck { window } },
                ),
                Reply::Failed(error) => Step::Finished(Err(WmError::Host(error))),
                _ => Step::Finished(Err(WmError::UnexpectedReply)),
            },
            Stage::ClosingCheck { window } => match reply {
                Reply::Flag(is_animated) => if is_animated {
                    act_twice(
                        Action::SetCloaked { window: window.node, cloaked: true },
                        Action::DetachWindowForClose { window: window.node },
                    )
                } else {
                    close_immediately(window)
                },
                Reply::Failed(error) => Step::Finished(Err(WmError::Host(error))),
                _ => Step::Finished(Err(WmError::UnexpectedReply)),
            },
        }
    }
}

/// Whether a command goes on although the action failed.
fn tolerates_failure(action: &Action) -> (tolerant: bool)
    ensures
        tolerant == command_dialogue::tolerates_failure(*action),
{
    match action {
        Action::SetCloaked { .. } => true,
        Action::CloseWindow { .. } => true,
        Action::SetTitleBarVisibility { .. } => true,
        Action::SetTransparency { .. } => true,
        Action::AdjustTransparency { .. } => true,
        _ => false,
    }
}

/// Performs the actions one after the other, up to the first that fails.
fn act_in_row<E>(actions: Vec<Action>) -> (step: CommandStep<E>)
    ensures
        command_step_dialogue(step) == command_dialogue::script::<E>(actions@),
{
    let mut rest = actions;
    if rest.len() == 0 {
        Step::Finished(Ok(()))
    } else {
        let action = rest.remove(0);
        assert(rest@ =~= actions@.drop_first());
        let tolerant = tolerates_failure(&action);
        Step::Call(CommandCall::Act(action), CommandRun { stage: Stage::Acting { tolerant, rest } })
    }
}

/// Performs one action.
fn act<E>(action: Action) -> (step: CommandStep<E>)
    ensures
        command_step_dialogue(step) == command_dialogue::script::<E>(seq![action]),
{
    let mut actions: Vec<Action> = Vec::new();
    actions.push(action);
    assert(actions@ =~= seq![action]);
    act_in_row(actions)
}

/// Performs two actions.
fn act_twice<E>(first: Action, second: Action) -> (step: CommandStep<E>)
    ensures
        command_step_dialogue(step) == command_dialogue::script::<E>(seq![first, second]),
{
    let mut actions: Vec<Action> = Vec::new();
    actions.push(first);
    actions.push(second);
    assert(actions@ =~= seq![first, second]);
    act_in_row(actions)
}

/// Adds the action, if there is one.
fn add_perhaps(actions: &mut Vec<Action>, action: Option<Action>)
    ensures
        final(actions)@ == old(actions)@ + command_dialogue::perhaps(action),
{
    match action {
        Some(action) => {
            actions.push(action);
        },
        None => {},
    }
    assert(actions@ =~= old(actions)@ + command_dialogue::perhaps(action));
}

/// Adds the action, if it is wanted.
fn add_wanted(actions: &mut Vec<Action>, is_wanted: bool, action: Action)
    ensures
        final(actions)@ == old(actions)@ + command_dialogue::wanted(is_wanted, action),
{
    if is_wanted {
        actions.push(action);
    }
    assert(actions@ =~= old(actions)@ + command_dialogue::wanted(is_wanted, action));
}

/// The borders that a command sets.
fn border_delta(args: &InvokeAdjustBordersCommand) -> (delta: RectDelta)
    ensures
        delta == command_dialogue::border_delta(*args),
{
    RectDelta {
        left: args.left.unwrap_or(LengthValue::zero_px()),
        top: args.top.unwrap_or(LengthValue::zero_px()),
        right: args.right.unwrap_or(LengthValue::zero_px()),
        bottom: args.bottom.unwrap_or(LengthValue::zero_px()),
    }
}

/// The moves of the focus that a command asks for.
fn focus_actions(args: &InvokeFocusCommand, origin: u64) -> (actions: Vec<Action>)
    ensures
        actions@ == command_dialogue::focus_actions(*args, origin),
{
    let mut actions: Vec<Action> = Vec::new();
    let in_direction = match &args.direction {
        Some(direction) => Some(Action::FocusInDirection { origin, direction: *direction }),
        None => None,
    };
    add_perhaps(&mut actions, in_direction);
    assert(actions@ =~= command_dialogue::perhaps(in_direction));
    add_perhaps(
        &mut actions,
        match &args.workspace_in_direction {
            Some(direction) => Some(
                Action::FocusWorkspace { target: WorkspaceTarget::Direction(*direction) },
            ),
            None => None,
        },
    );
    add_perhaps(
        &mut actions,
        match &args.container_id {
            Some(id) => Some(Action::FocusContainerById { id: *id }),
            None => None,
        },
    );
    add_perhaps(
        &mut actions,
        match &args.workspace {
            Some(name) => Some(
                Action::FocusWorkspace { target: WorkspaceTarget::Name(name.clone()) },
            ),
            None => None,
        },
    );
    add_perhaps(
        &mut actions,
        match &args.workspace_on_monitor {
            Some(name) => Some(
                Action::FocusWorkspace { target: WorkspaceTarget::NameOnMonitor(name.clone()) },
            ),
            None => None,
        },
    );
    add_perhaps(
        &mut actions,
        match &args.monitor {
            Some(index) => Some(Action::FocusMonitor { index: *index }),
            None => None,
        },
    );
    add_wanted(
        &mut actions,
        args.next_active_workspace,
        Action::FocusWorkspace { target: WorkspaceTarget::NextActive },
    );
    add_wanted(
        &mut actions,
        args.prev_active_workspace,
        Action::FocusWorkspace { target: WorkspaceTarget::PreviousActive },
    );
    add_wanted(
        &mut actions,
        args.next_workspace,
        Action::FocusWorkspace { target: WorkspaceTarget::Next },
    );
    add_wanted(
        &mut actions,
        args.prev_workspace,
        Action::FocusWorkspace { target: WorkspaceTarget::Previous },
    );
    add_wanted(
        &mut actions,
        args.recent_workspace,
        Action::FocusWorkspace { target: WorkspaceTarget::Recent },
    );
    add_wanted(
        &mut actions,
        args.next_active_workspace_on_monitor,
        Action::FocusWorkspace { target: WorkspaceTarget::NextActiveInMonitor },
    );
    add_wanted(
        &mut actions,
        args.prev_active_workspace_on_monitor,
        Action::FocusWorkspace { target: WorkspaceTarget::PreviousActiveInMonitor },
    );
    actions
}

/// The moves of a window that a command asks for.
fn move_actions(args: &InvokeMoveCommand, window: u64) -> (actions: Vec<Action>)
    ensures
        actions@ == command_dialogue::move_actions(*args, window),
{
    let mut actions: Vec<Action> = Vec::new();
    let in_direction = match &args.direction {
        Some(direction) => Some(Action::MoveWindowInDirection { window, direction: *direction }),
        None => None,
    };
    add_perhaps(&mut actions, in_direction);
    assert(actions@ =~= command_dialogue::perhaps(in_direction));
    add_perhaps(
        &mut actions,
        match &args.workspace_in_direction {
            Some(direction) => Some(
                Action::MoveWindowToWorkspace {
                    window,
                    target: WorkspaceTarget::Direction(*direction),
                },
            ),
            None => None,
        },
    );
    add_perhaps(
        &mut actions,
        match &args.workspace {
            Some(name) => Some(
                Action::MoveWindowToWorkspace {
                    window,
                    target: WorkspaceTarget::Name(name.clone()),
                },
            ),
            None => None,
        },
    );
    add_perhaps(
        &mut actions,
        match &args.workspace_on_monitor {
            Some(name) => Some(
                Action::MoveWindowToWorkspace {
                    window,
                    target: WorkspaceTarget::NameOnMonitor(name.clone()),
                },
            ),
            None => None,
        },
    );
    add_wanted(
        &mut actions,
        args.next_active_workspace,
        Action::MoveWindowToWorkspace { window, target: WorkspaceTarget::NextActive },
    );
    add_wanted(
        &mut actions,
        args.prev_active_workspace,
        Action::MoveWindowToWorkspace { window, target: WorkspaceTarget::PreviousActive },
    );
    add_wanted(
        &mut actions,
        args.next_workspace,
        Action::MoveWindowToWorkspace { window, target: WorkspaceTarget::Next },
    );
    add_wanted(
        &mut actions,
        args.prev_workspace,
        Action::MoveWindowToWorkspace { window, target: WorkspaceTarget::Previous },
    );
    add_wanted(
        &mut actions,
        args.recent_workspace,
        Action::MoveWindowToWorkspace { window, target: WorkspaceTarget::Recent },
    );
    add_wanted(
        &mut actions,
        args.next_active_workspace_on_monitor,
        Action::MoveWindowToWorkspace { window, target: WorkspaceTarget::NextActiveInMonitor },
    );
    add_wanted(
        &mut actions,
        args.prev_active_workspace_on_monitor,
        Action::MoveWindowToWorkspace { window, target: WorkspaceTarget::PreviousActiveInMonitor },
    );
    actions
}

/// The changes of transparency that a command asks for.
fn transparency_actions(args: &InvokeSetTransparencyCommand, window: u64) -> (actions: Vec<Action>)
    ensures
        actions@ == command_dialogue::transparency_actions(*args, window),
{
    let mut actions: Vec<Action> = Vec::new();
    let set = match args.opacity {
        Some(opacity) => Some(
            Action::SetTransparency { window, opacity: Opacity::Value(opacity) },
        ),
        None => None,
    };
    add_perhaps(&mut actions, set);
    assert(actions@ =~= command_dialogue::perhaps(set));
    add_perhaps(
        &mut actions,
        match args.opacity_delta {
            Some(delta) => Some(Action::AdjustTransparency { window, delta }),
            None => None,
        },
    );
    actions
}

/// Takes the transparency pin off the window, or pins its transparency.
fn toggle_transparency_pin<E>(is_pinned: bool, opacity: Option<OpacityValue>, window: u64) -> (step:
    CommandStep<E>)
    ensures
        command_step_dialogue(step) == command_dialogue::script::<E>(
            command_dialogue::transparency_pin_actions(is_pinned, opacity, window),
        ),
{
    if is_pinned {
        act_twice(Action::SetTransparencyPin { window, pin: None }, Action::QueueAllEffectsUpdate)
    } else {
        let opacity = match opacity {
            Some(opacity) => Opacity::Value(opacity),
            None => Opacity::Alpha(u8::MAX),
        };
        act_twice(
            Action::SetTransparency { window, opacity },
            Action::SetTransparencyPin { window, pin: Some(opacity) },
        )
    }
}

/// The words of a command line, with a space between two words.
fn join_words(words: &Vec<String>) -> (line: String)
    ensures
        line@ == command_dialogue::joined(words@),
{
    let mut line = String::new();
    let mut count: usize = 0;
    assert(words@.take(0) =~= Seq::<String>::empty());
    while count < words.len()
        invariant
            count <= words.len(),
            line@ == command_dialogue::joined(words@.take(count as int)),
        decreases words.len() - count,
    {
        assert(words@.take(count + 1).drop_last() =~= words@.take(count as int));
        if count > 0 {
            line.append(" ");
        }
        line.append(words[count].as_str());
        assert(line@ =~= command_dialogue::joined(words@.take(count + 1)));
        count = count + 1;
    }
    assert(words@.take(count as int) =~= words@);
    line
}

/// The placement that a window still needs once it floats.
fn place_window(window: UpdatedWindow, placement: Placement) -> (actions: Vec<Action>)
    ensures
        actions@ == command_dialogue::placement_actions(window, placement),
{
    let mut actions: Vec<Action> = Vec::new();
    if !window.has_custom_floating_placement {
        let is_sized = placement.width.is_some() || placement.height.is_some();
        let size = Action::SetWindowSize {
            window: window.node,
            width: placement.width,
            height: placement.height,
        };
        add_wanted(&mut actions, is_sized, size);
        assert(actions@ =~= command_dialogue::wanted(is_sized, size));
        add_perhaps(
            &mut actions,
            if placement.centered {
                Some(
                    Action::SetWindowPosition {
                        window: window.node,
                        target: WindowPositionTarget::Centered,
                    },
                )
            } else if placement.x_pos.is_some() || placement.y_pos.is_some() {
                Some(
                    Action::SetWindowPosition {
                        window: window.node,
                        target: WindowPositionTarget::Coordinates(placement.x_pos, placement.y_pos),
                    },
                )
            } else {
                None
            },
        );
    }
    actions
}

/// Puts the window in a state, then places it.
fn change_state<E>(window: u64, state: WindowState, placement: Option<Placement>) -> (step:
    CommandStep<E>)
    ensures
        command_step_dialogue(step) == command_dialogue::change_state::<E>(
            window,
            state,
            placement,
        ),
{
    Step::Call(
        CommandCall::Act(Action::UpdateWindowState { window, state }),
        CommandRun { stage: Stage::ChangingState { placement } },
    )
}

/// Puts the window in the state that toggling `target` leads to, then places
/// it.
fn toggle_state<E>(window: u64, target: WindowState, placement: Option<Placement>) -> (step:
    CommandStep<E>)
    ensures
        command_step_dialogue(step) == command_dialogue::toggle_state::<E>(
            window,
            target,
            placement,
        ),
{
    Step::Call(
        CommandCall::Act(Action::ToggledState { window, target }),
        CommandRun { stage: Stage::TogglingState { window, placement } },
    )
}

/// The floating state that a command asks for.
fn floating_state(
    centered: Option<bool>,
    shown_on_top: Option<bool>,
    defaults: &FloatingStateConfig,
) -> (state: WindowState)
    ensures
        state == command_dialogue::floating_state(centered, shown_on_top, *defaults),
{
    WindowState::Floating(
        FloatingStateConfig {
            centered: centered.unwrap_or(defaults.centered),
            shown_on_top: shown_on_top.unwrap_or(defaults.shown_on_top),
            transparency: defaults.transparency,
        },
    )
}

/// The fullscreen state that a command asks for.
fn fullscreen_state(
    maximized: Option<bool>,
    shown_on_top: Option<bool>,
    defaults: &FullscreenStateConfig,
) -> (state: WindowState)
    ensures
        state == command_dialogue::fullscreen_state(maximized, shown_on_top, *defaults),
{
    WindowState::Fullscreen(
        FullscreenStateConfig {
            maximized: maximized.unwrap_or(defaults.maximized),
            shown_on_top: shown_on_top.unwrap_or(defaults.shown_on_top),
            transparency: defaults.transparency,
        },
    )
}

/// The effects of the window.
fn effects_of(window: Container, state: &WmState, config: &UserConfig) -> (effects:
    WindowEffectConfig)
    ensures
        effects == command_dialogue::effects_of(window, *state, *config),
{
    let focused_id: u128 = match state.focused_container {
        Some(focused) => focused.id.value,
        None => default_uuid(),
    };
    if window.id.value == focused_id {
        config.focused_window
    } else {
        config.other_windows
    }
}

/// How the surrogate of a window with these effects is drawn.
fn surrogate_look(effects: WindowEffectConfig) -> (look: SurrogateLook)
    ensures
        look == command_dialogue::surrogate_look(effects),
{
    SurrogateLook {
        opacity: if effects.transparency.enabled {
            effects.transparency.alpha
        } else {
            u8::MAX
        },
        corner_style: if effects.corner_style.enabled {
            effects.corner_style.style
        } else {
            CornerStyle::Default
        },
    }
}

/// Closes the window without an animation.
fn close_immediately<E>(window: Container) -> (step: CommandStep<E>)
    ensures
        command_step_dialogue(step) == command_dialogue::close_immediately::<E>(window),
{
    act(Action::CloseWindow { window: window.node })
}

/// Closes the window, behind a surrogate where closing is animated.
fn close_window<E>(window: Container, state: &WmState, config: &UserConfig) -> (step:
    CommandStep<E>)
    ensures
        command_step_dialogue(step) == (if state.platform is Windows
            && config.window_close_animation {
            command_dialogue::close_animated::<E>(
                window,
                command_dialogue::surrogate_look(
                    command_dialogue::effects_of(window, *state, *config),
                ),
            )
        } else {
            command_dialogue::close_immediately::<E>(window)
        }),
{
    if matches!(state.platform, Platform::Windows) && config.window_close_animation {
        let look = surrogate_look(effects_of(window, state, config));
        Step::Call(
            CommandCall::Act(Action::WindowRect { window: window.node }),
            CommandRun { stage: Stage::ClosingRect { window, look } },
        )
    } else {
        close_immediately(window)
    }
}

/// What the command does with a subject that is in the tree and a window.
fn run_window_command<E>(
    command: &InvokeCommand,
    window: Container,
    state: &WmState,
    config: &UserConfig,
) -> (step: CommandStep<E>)
    requires
        command_dialogue::is_window_command(*command),
        window.facts.window is Some,
    ensures
        command_step_dialogue(step) == command_dialogue::command_body::<E>(
            *command,
            window,
            *state,
            *config,
        ),
{
    let node: u64 = window.node;
    let is_windows = matches!(state.platform, Platform::Windows);
    match command {
        InvokeCommand::AdjustBorders(args) => act_twice(
            Action::SetBorderDelta { window: node, delta: border_delta(args) },
            Action::QueueRedraw { container: node },
        ),
        InvokeCommand::Close => close_window(window, state, config),
        InvokeCommand::Ignore => act(Action::IgnoreWindow { window: node }),
        InvokeCommand::Move(args) => act_in_row(move_actions(args, node)),
        InvokeCommand::Position(args) => act(
            Action::SetWindowPosition {
                window: node,
                target: if args.centered {
                    WindowPositionTarget::Centered
                } else {
                    WindowPositionTarget::Coordinates(args.x_pos, args.y_pos)
                },
            },
        ),
        InvokeCommand::Resize(args) => act(
            Action::ResizeWindow { window: node, width: args.width, height: args.height },
        ),
        InvokeCommand::SetFloating { centered, shown_on_top, x_pos, y_pos, width, height } => {
            let placement = Placement {
                centered: centered.unwrap_or(config.floating_defaults.centered),
                x_pos: *x_pos,
                y_pos: *y_pos,
                width: *width,
                height: *height,
            };
            change_state(
                node,
                floating_state(*centered, *shown_on_top, &config.floating_defaults),
                Some(placement),
            )
        },
        InvokeCommand::SetFullscreen { maximized, shown_on_top } => change_state(
            node,
            fullscreen_state(*maximized, *shown_on_top, &config.fullscreen_defaults),
            None,
        ),
        InvokeCommand::SetMinimized => change_state(node, WindowState::Minimized, None),
        InvokeCommand::SetTiling => change_state(node, WindowState::Tiling, None),
        InvokeCommand::SetTitleBarVisibility { visibility } => if is_windows {
            let visible = matches!(visibility, TitleBarVisibility::Shown);
            act(Action::SetTitleBarVisibility { window: node, visible })
        } else {
            Step::Finished(Ok(()))
        },
        InvokeCommand::SetTransparency(args) => if is_windows {
            act_in_row(transparency_actions(args, node))
        } else {
            Step::Finished(Ok(()))
        },
        InvokeCommand::Size(args) => act(
            Action::SetWindowSize { window: node, width: args.width, height: args.height },
        ),
        InvokeCommand::ToggleFloating { centered, shown_on_top } => {
            let placement = Placement {
                centered: centered.unwrap_or(config.floating_defaults.centered),
                x_pos: None,
                y_pos: None,
                width: None,
                height: None,
            };
            toggle_state(
                node,
                floating_state(*centered, *shown_on_top, &config.floating_defaults),
                Some(placement),
            )
        },
        InvokeCommand::ToggleFullscreen { maximized, shown_on_top } => toggle_state(
            node,
            fullscreen_state(*maximized, *shown_on_top, &config.fullscreen_defaults),
            None,
        ),
        InvokeCommand::ToggleMinimized => toggle_state(node, WindowState::Minimized, None),
        InvokeCommand::ToggleTiling => toggle_state(node, WindowState::Tiling, None),
        InvokeCommand::ToggleTransparencyPin { opacity } => match window.facts.window {
            Some(facts) => if is_windows {
                toggle_transparency_pin(facts.is_transparency_pinned, *opacity, node)
            } else {
                Step::Finished(Ok(()))
            },
            None => Step::Finished(Ok(())),
        },
        _ => Step::Finished(Ok(())),
    }
}

impl WindowManager {
    /// Runs a command with a container as its subject, up to its first call.
    ///
    /// A paused window manager does nothing but toggle the pause.
    pub fn run_command<E>(
        command: &InvokeCommand,
        subject_container: Container,
        state: &WmState,
        config: &UserConfig,
    ) -> (step: CommandStep<E>)
        ensures
            command_step_dialogue(step) == command_dialogue::run_command_dialogue::<E>(
                *command,
                subject_container,
                *state,
                *config,
            ),
            state.is_paused && !(command is WmTogglePause) ==> step == CommandStep::<E>::Finished(
                Ok(()),
            ),
            (!state.is_paused || command is WmTogglePause) && subject_container.facts.is_detached
                ==> step == CommandStep::<E>::Finished(Err(WmError::SubjectDetached)),
    {
        if state.is_paused && !matches!(command, InvokeCommand::WmTogglePause) {
            return Step::Finished(Ok(()));
        }
        if subject_container.facts.is_detached {
            return Step::Finished(Err(WmError::SubjectDetached));
        }
        let node: u64 = subject_container.node;
        match command {
            InvokeCommand::Focus(args) => act_in_row(focus_actions(args, node)),
            InvokeCommand::MoveWorkspace { direction } => match subject_container.facts.workspace {
                Some(workspace) => act(
                    Action::MoveWorkspaceInDirection { workspace, direction: *direction },
                ),
                None => Step::Finished(Err(WmError::NoWorkspace)),
            },
            InvokeCommand::UpdateWorkspaceConfig { workspace, new_config } => match workspace {
                Some(name) => Step::Call(
                    CommandCall::Act(Action::WorkspaceByName { name: name.clone() }),
                    CommandRun {
                        stage: Stage::FindingWorkspace { new_config: new_config.clone() },
                    },
                ),
                None => match subject_container.facts.workspace {
                    Some(workspace) => act(
                        Action::UpdateWorkspaceConfig { workspace, new_config: new_config.clone() },
                    ),
                    None => Step::Finished(Err(WmError::NoWorkspace)),
                },
            },
            InvokeCommand::ShellExec { hide_window, command } => {
                let rest: Vec<Action> = Vec::new();
                Step::Call(
                    CommandCall::ShellExec {
                        command: join_words(command),
                        hide_window: *hide_window,
                    },
                    CommandRun { stage: Stage::Acting { tolerant: false, rest } },
                )
            },
            InvokeCommand::ToggleTilingDirection => act(
                Action::ToggleTilingDirection { container: node },
            ),
            InvokeCommand::SetTilingDirection { tiling_direction } => act(
                Action::SetTilingDirection { container: node, direction: *tiling_direction },
            ),
            InvokeCommand::WmCycleFocus {
                omit_floating,
                omit_fullscreen,
                omit_minimized,
                omit_tiling,
            } => act(
                Action::CycleFocus {
                    omit_floating: *omit_floating,
                    omit_fullscreen: *omit_fullscreen,
                    omit_minimized: *omit_minimized,
                    omit_tiling: *omit_tiling,
                },
            ),
            InvokeCommand::WmDisableBindingMode { name } => act(
                Action::DisableBindingMode { name: name.clone() },
            ),
            InvokeCommand::WmEnableBindingMode { name } => act(
                Action::EnableBindingMode { name: name.clone() },
            ),
            InvokeCommand::WmExit => act(Action::EmitExit),
            InvokeCommand::WmRedraw => act(Action::QueueRedraw { container: state.root_node }),
            InvokeCommand::WmReloadConfig => act(Action::ReloadConfig),
            InvokeCommand::WmTogglePause => act(Action::TogglePause),
            _ => if subject_container.facts.window.is_some() {
                run_window_command(command, subject_container, state, config)
            } else {
                Step::Finished(Ok(()))
            },
        }
    }
}

} // verus!
