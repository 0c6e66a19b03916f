//! What each command does, told by the calls that it asks for.
use vstd::prelude::*;

use crate::call::{Action, CommandCall, Reply, UpdatedWindow};
use crate::command::{
    InvokeAdjustBordersCommand, InvokeCommand, InvokeFocusCommand, InvokeMoveCommand,
    InvokePositionCommand, InvokeResizeCommand, InvokeSetTransparencyCommand, InvokeSizeCommand,
    InvokeUpdateWorkspaceConfig,
};
use crate::command_dialogue;
use crate::command_dialogue::CommandDialogue;
use crate::conduct;
use crate::conduct::Part;
use crate::config::UserConfig;
use crate::dialogue::Dialogue;
use crate::error::WmError;
use crate::state::{Container, WmState};
use crate::values::{
    CornerStyle, FloatingStateConfig, FullscreenStateConfig, LengthUnit, LengthValue, Opacity,
    OpacityValue, Rect, RectDelta, TilingDirection, TitleBarVisibility, WindowPositionTarget,
    WindowState,
};
use crate::workspace_target::{Direction, WorkspaceTarget};

verus! {

/// Whether the command can run with the subject: the window manager is not
/// paused, and the subject is in the tree.
pub open spec fn can_run(subject: Container, state: WmState) -> bool {
    !state.is_paused && !subject.facts.is_detached
}

/// Whether it can, and the subject is a window.
pub open spec fn can_run_with_window(subject: Container, state: WmState) -> bool {
    can_run(subject, state) && subject.facts.window is Some
}

/// Proves that actions, written out, are done in turn.
proof fn lemma_one<E>(action: Action)
    ensures
        conduct::does_in_turn(
            command_dialogue::script::<E>(seq![action]),
            seq![
                Part {
                    call: CommandCall::Act(action),
                    failure_counts: !command_dialogue::tolerates_failure(action),
                },
            ],
        ),
{
    conduct::lemma_script_does::<E>(
        seq![action],
        seq![
            Part {
                call: CommandCall::Act(action),
                failure_counts: !command_dialogue::tolerates_failure(action),
            },
        ],
    );
}

proof fn lemma_two<E>(first: Action, second: Action)
    ensures
        conduct::does_in_turn(
            command_dialogue::script::<E>(seq![first, second]),
            seq![
                Part {
                    call: CommandCall::Act(first),
                    failure_counts: !command_dialogue::tolerates_failure(first),
                },
                Part {
                    call: CommandCall::Act(second),
                    failure_counts: !command_dialogue::tolerates_failure(second),
                },
            ],
        ),
{
    conduct::lemma_script_does::<E>(
        seq![first, second],
        seq![
            Part {
                call: CommandCall::Act(first),
                failure_counts: !command_dialogue::tolerates_failure(first),
            },
            Part {
                call: CommandCall::Act(second),
                failure_counts: !command_dialogue::tolerates_failure(second),
            },
        ],
    );
}

// ---------------------------------------------------------------------------
// Whom a command is for.

/// A command for windows succeeds with any other container, and asks for
/// nothing.
pub proof fn law_other_containers_are_left_alone<E>(
    command: InvokeCommand,
    subject: Container,
    state: WmState,
    config: UserConfig,
)
    requires
        command is AdjustBorders || command is Close || command is Ignore || command is Move
            || command is Position || command is Resize || command is SetFloating
            || command is SetFullscreen || command is SetMinimized || command is SetTiling
            || command is SetTitleBarVisibility || command is SetTransparency || command is Size
            || command is ToggleFloating || command is ToggleFullscreen
            || command is ToggleMinimized || command is ToggleTiling
            || command is ToggleTransparencyPin,
        subject.facts.window is None,
        !subject.facts.is_detached,
    ensures
        command_dialogue::run_command_dialogue::<E>(command, subject, state, config)
            == CommandDialogue::<E>::Return(Ok(())),
{
}

// ---------------------------------------------------------------------------
// Borders, sizes and positions.

/// The borders of a window are set to those of the command, each at its own edge
/// and none where the command leaves an edge out. The window is then redrawn.
pub proof fn law_borders_are_set_edge_by_edge<E>(
    args: InvokeAdjustBordersCommand,
    subject: Container,
    state: WmState,
    config: UserConfig,
)
    requires
        can_run_with_window(subject, state),
    ensures
        ({
            let command = command_dialogue::run_command_dialogue::<E>(
                InvokeCommand::AdjustBorders(args),
                subject,
                state,
                config,
            );
            let none = LengthValue { amount_bits: 0, unit: LengthUnit::Pixel };
            conduct::does_in_turn(
                command,
                seq![
                    conduct::counted(
                        Action::SetBorderDelta {
                            window: subject.node,
                            delta: RectDelta {
                                left: if args.left is Some {
                                    args.left->0
                                } else {
                                    none
                                },
                                top: if args.top is Some {
                                    args.top->0
                                } else {
                                    none
                                },
                                right: if args.right is Some {
                                    args.right->0
                                } else {
                                    none
                                },
                                bottom: if args.bottom is Some {
                                    args.bottom->0
                                } else {
                                    none
                                },
                            },
                        },
                    ),
                    conduct::counted(Action::QueueRedraw { container: subject.node }),
                ],
            )
        }),
{
    let delta = command_dialogue::border_delta(args);
    let zero = LengthValue { amount_bits: 0, unit: LengthUnit::Pixel };
    assert(delta.left == (if args.left is Some {
        args.left->0
    } else {
        zero
    }));
    assert(delta.top == (if args.top is Some {
        args.top->0
    } else {
        zero
    }));
    assert(delta.right == (if args.right is Some {
        args.right->0
    } else {
        zero
    }));
    assert(delta.bottom == (if args.bottom is Some {
        args.bottom->0
    } else {
        zero
    }));
    lemma_two::<E>(
        Action::SetBorderDelta { window: subject.node, delta },
        Action::QueueRedraw { container: subject.node },
    );
}

/// A window is resized by the very width and height of the command.
pub proof fn law_resize_hands_lengths_on<E>(
    args: InvokeResizeCommand,
    subject: Container,
    state: WmState,
    config: UserConfig,
)
    requires
        can_run_with_window(subject, state),
    ensures
        ({
            let command = command_dialogue::run_command_dialogue::<E>(
                InvokeCommand::Resize(args),
                subject,
                state,
                config,
            );
            conduct::does_in_turn(
                command,
                seq![
                    conduct::counted(
                        Action::ResizeWindow {
                            window: subject.node,
                            width: args.width,
                            height: args.height,
                        },
                    ),
                ],
            )
        }),
{
    lemma_one::<E>(
        Action::ResizeWindow { window: subject.node, width: args.width, height: args.height },
    );
}

/// A window gets the very width and height of the command.
pub proof fn law_size_hands_lengths_on<E>(
    args: InvokeSizeCommand,
    subject: Container,
    state: WmState,
    config: UserConfig,
)
    requires
        can_run_with_window(subject, state),
    ensures
        ({
            let command = command_dialogue::run_command_dialogue::<E>(
                InvokeCommand::Size(args),
                subject,
                state,
                config,
            );
            conduct::does_in_turn(
                command,
                seq![
                    conduct::counted(
                        Action::SetWindowSize {
                            window: subject.node,
                            width: args.width,
                            height: args.height,
                        },
                    ),
                ],
            )
        }),
{
    lemma_one::<E>(
        Action::SetWindowSize { window: subject.node, width: args.width, height: args.height },
    );
}

/// A window is centered where the command says so, and otherwise goes to the very
/// coordinates of the command.
pub proof fn law_position_is_the_commands<E>(
    args: InvokePositionCommand,
    subject: Container,
    state: WmState,
    config: UserConfig,
)
    requires
        can_run_with_window(subject, state),
    ensures
        ({
            let command = command_dialogue::run_command_dialogue::<E>(
                InvokeCommand::Position(args),
                subject,
                state,
                config,
            );
            &&& args.centered ==> conduct::does_in_turn(
                command,
                seq![
                    conduct::counted(
                        Action::SetWindowPosition {
                            window: subject.node,
                            target: WindowPositionTarget::Centered,
                        },
                    ),
                ],
            )
            &&& !args.centered ==> conduct::does_in_turn(
                command,
                seq![
                    conduct::counted(
                        Action::SetWindowPosition {
                            window: subject.node,
                            target: WindowPositionTarget::Coordinates(args.x_pos, args.y_pos),
                        },
                    ),
                ],
            )
        }),
{
    lemma_one::<E>(
        Action::SetWindowPosition {
            window: subject.node,
            target: if args.centered {
                WindowPositionTarget::Centered
            } else {
                WindowPositionTarget::Coordinates(args.x_pos, args.y_pos)
            },
        },
    );
}

/// The window that is ignored from now on is the subject.
pub proof fn law_ignored_window_is_the_subject<E>(
    subject: Container,
    state: WmState,
    config: UserConfig,
)
    requires
        can_run_with_window(subject, state),
    ensures
        ({
            let command = command_dialogue::run_command_dialogue::<E>(
                InvokeCommand::Ignore,
                subject,
                state,
                config,
            );
            conduct::does_in_turn(
                command,
                seq![conduct::counted(Action::IgnoreWindow { window: subject.node })],
            )
        }),
{
    lemma_one::<E>(Action::IgnoreWindow { window: subject.node });
}

// ---------------------------------------------------------------------------
// Focus and moves.

proof fn lemma_focus_actions(args: InvokeFocusCommand, origin: u64)
    ensures
        conduct::same(
            command_dialogue::focus_actions(args, origin),
            conduct::given(
                args.direction is Some,
                Action::FocusInDirection { origin, direction: args.direction->0 },
            ) + conduct::given(
                args.workspace_in_direction is Some,
                Action::FocusWorkspace {
                    target: WorkspaceTarget::Direction(args.workspace_in_direction->0),
                },
            ) + conduct::given(
                args.container_id is Some,
                Action::FocusContainerById { id: args.container_id->0 },
            ) + conduct::given(
                args.workspace is Some,
                Action::FocusWorkspace { target: WorkspaceTarget::Name(args.workspace->0) },
            ) + conduct::given(
                args.workspace_on_monitor is Some,
                Action::FocusWorkspace {
                    target: WorkspaceTarget::NameOnMonitor(args.workspace_on_monitor->0),
                },
            ) + conduct::given(
                args.monitor is Some,
                Action::FocusMonitor { index: args.monitor->0 },
            ) + conduct::given(
                args.next_active_workspace,
                Action::FocusWorkspace { target: WorkspaceTarget::NextActive },
            ) + conduct::given(
                args.prev_active_workspace,
                Action::FocusWorkspace { target: WorkspaceTarget::PreviousActive },
            ) + conduct::given(
                args.next_workspace,
                Action::FocusWorkspace { target: WorkspaceTarget::Next },
            ) + conduct::given(
                args.prev_workspace,
                Action::FocusWorkspace { target: WorkspaceTarget::Previous },
            ) + conduct::given(
                args.recent_workspace,
                Action::FocusWorkspace { target: WorkspaceTarget::Recent },
            ) + conduct::given(
                args.next_active_workspace_on_monitor,
                Action::FocusWorkspace { target: WorkspaceTarget::NextActiveInMonitor },
            ) + conduct::given(
                args.prev_active_workspace_on_monitor,
                Action::FocusWorkspace { target: WorkspaceTarget::PreviousActiveInMonitor },
            ),
        ),
{
    conduct::lemma_given_perhaps(
        args.direction is Some,
        Action::FocusInDirection { origin, direction: args.direction->0 },
        match args.direction {
            Some(value) => Some(Action::FocusInDirection { origin, direction: value }),
            None => None,
        },
    );
    conduct::lemma_given_perhaps(
        args.workspace_in_direction is Some,
        Action::FocusWorkspace {
            target: WorkspaceTarget::Direction(args.workspace_in_direction->0),
        },
        match args.workspace_in_direction {
            Some(value) => Some(
                Action::FocusWorkspace { target: WorkspaceTarget::Direction(value) },
            ),
            None => None,
        },
    );
    conduct::lemma_given_perhaps(
        args.container_id is Some,
        Action::FocusContainerById { id: args.container_id->0 },
        match args.container_id {
            Some(value) => Some(Action::FocusContainerById { id: value }),
            None => None,
        },
    );
    conduct::lemma_given_perhaps(
        args.workspace is Some,
        Action::FocusWorkspace { target: WorkspaceTarget::Name(args.workspace->0) },
        match args.workspace {
            Some(value) => Some(Action::FocusWorkspace { target: WorkspaceTarget::Name(value) }),
            None => None,
        },
    );
    conduct::lemma_given_perhaps(
        args.workspace_on_monitor is Some,
        Action::FocusWorkspace {
            target: WorkspaceTarget::NameOnMonitor(args.workspace_on_monitor->0),
        },
        match args.workspace_on_monitor {
            Some(value) => Some(
                Action::FocusWorkspace { target: WorkspaceTarget::NameOnMonitor(value) },
            ),
            None => None,
        },
    );
    conduct::lemma_given_perhaps(
        args.monitor is Some,
        Action::FocusMonitor { index: args.monitor->0 },
        match args.monitor {
            Some(value) => Some(Action::FocusMonitor { index: value }),
            None => None,
        },
    );
    conduct::lemma_given_wanted(
        args.next_active_workspace,
        Action::FocusWorkspace { target: WorkspaceTarget::NextActive },
    );
    conduct::lemma_given_wanted(
        args.prev_active_workspace,
        Action::FocusWorkspace { target: WorkspaceTarget::PreviousActive },
    );
    conduct::lemma_given_wanted(
        args.next_workspace,
        Action::FocusWorkspace { target: WorkspaceTarget::Next },
    );
    conduct::lemma_given_wanted(
        args.prev_workspace,
        Action::FocusWorkspace { target: WorkspaceTarget::Previous },
    );
    conduct::lemma_given_wanted(
        args.recent_workspace,
        Action::FocusWorkspace { target: WorkspaceTarget::Recent },
    );
    conduct::lemma_given_wanted(
        args.next_active_workspace_on_monitor,
        Action::FocusWorkspace { target: WorkspaceTarget::NextActiveInMonitor },
    );
    conduct::lemma_given_wanted(
        args.prev_active_workspace_on_monitor,
        Action::FocusWorkspace { target: WorkspaceTarget::PreviousActiveInMonitor },
    );
}

proof fn lemma_focus_actions_count(args: InvokeFocusCommand, origin: u64)
    ensures
        conduct::all_count(command_dialogue::focus_actions(args, origin)),
{
    lemma_focus_actions(args, origin);
    broadcast use {conduct::lemma_all_count_concat, conduct::lemma_all_count_given};

}

proof fn lemma_focus_actions_done<E>(
    args: InvokeFocusCommand,
    actions: Seq<Action>,
    subject: Container,
    state: WmState,
    config: UserConfig,
)
    requires
        can_run(subject, state),
        conduct::same(command_dialogue::focus_actions(args, subject.node), actions),
        conduct::all_count(actions),
    ensures
        conduct::does_in_turn(
            command_dialogue::run_command_dialogue::<E>(
                InvokeCommand::Focus(args),
                subject,
                state,
                config,
            ),
            conduct::all_counted(actions),
        ),
{
    conduct::lemma_script_does_all::<E>(actions);
}

proof fn lemma_move_actions(args: InvokeMoveCommand, window: u64)
    ensures
        conduct::same(
            command_dialogue::move_actions(args, window),
            conduct::given(
                args.direction is Some,
                Action::MoveWindowInDirection { window, direction: args.direction->0 },
            ) + conduct::given(
                args.workspace_in_direction is Some,
                Action::MoveWindowToWorkspace {
                    window,
                    target: WorkspaceTarget::Direction(args.workspace_in_direction->0),
                },
            ) + conduct::given(
                args.workspace is Some,
                Action::MoveWindowToWorkspace {
                    window,
                    target: WorkspaceTarget::Name(args.workspace->0),
                },
            ) + conduct::given(
                args.workspace_on_monitor is Some,
                Action::MoveWindowToWorkspace {
                    window,
                    target: WorkspaceTarget::NameOnMonitor(args.workspace_on_monitor->0),
                },
            ) + conduct::given(
                args.next_active_workspace,
                Action::MoveWindowToWorkspace { window, target: WorkspaceTarget::NextActive },
            ) + conduct::given(
                args.prev_active_workspace,
                Action::MoveWindowToWorkspace { window, target: WorkspaceTarget::PreviousActive },
            ) + conduct::given(
                args.next_workspace,
                Action::MoveWindowToWorkspace { window, target: WorkspaceTarget::Next },
            ) + conduct::given(
                args.prev_workspace,
                Action::MoveWindowToWorkspace { window, target: WorkspaceTarget::Previous },
            ) + conduct::given(
                args.recent_workspace,
                Action::MoveWindowToWorkspace { window, target: WorkspaceTarget::Recent },
            ) + conduct::given(
                args.next_active_workspace_on_monitor,
                Action::MoveWindowToWorkspace {
                    window,
                    target: WorkspaceTarget::NextActiveInMonitor,
                },
            ) + conduct::given(
                args.prev_active_workspace_on_monitor,
                Action::MoveWindowToWorkspace {
                    window,
                    target: WorkspaceTarget::PreviousActiveInMonitor,
                },
            ),
        ),
{
    conduct::lemma_given_perhaps(
        args.direction is Some,
        Action::MoveWindowInDirection { window, direction: args.direction->0 },
        match args.direction {
            Some(value) => Some(Action::MoveWindowInDirection { window, direction: value }),
            None => None,
        },
    );
    conduct::lemma_given_perhaps(
        args.workspace_in_direction is Some,
        Action::MoveWindowToWorkspace {
            window,
            target: WorkspaceTarget::Direction(args.workspace_in_direction->0),
        },
        match args.workspace_in_direction {
            Some(value) => Some(
                Action::MoveWindowToWorkspace { window, target: WorkspaceTarget::Direction(value) },
            ),
            None => None,
        },
    );
    conduct::lemma_given_perhaps(
        args.workspace is Some,
        Action::MoveWindowToWorkspace { window, target: WorkspaceTarget::Name(args.workspace->0) },
        match args.workspace {
            Some(value) => Some(
                Action::MoveWindowToWorkspace { window, target: WorkspaceTarget::Name(value) },
            ),
            None => None,
        },
    );
    conduct::lemma_given_perhaps(
        args.workspace_on_monitor is Some,
        Action::MoveWindowToWorkspace {
            window,
            target: WorkspaceTarget::NameOnMonitor(args.workspace_on_monitor->0),
        },
        match args.workspace_on_monitor {
            Some(value) => Some(
                Action::MoveWindowToWorkspace {
                    window,
                    target: WorkspaceTarget::NameOnMonitor(value),
                },
            ),
            None => None,
        },
    );
    conduct::lemma_given_wanted(
        args.next_active_workspace,
        Action::MoveWindowToWorkspace { window, target: WorkspaceTarget::NextActive },
    );
    conduct::lemma_given_wanted(
        args.prev_active_workspace,
        Action::MoveWindowToWorkspace { window, target: WorkspaceTarget::PreviousActive },
    );
    conduct::lemma_given_wanted(
        args.next_workspace,
        Action::MoveWindowToWorkspace { window, target: WorkspaceTarget::Next },
    );
    conduct::lemma_given_wanted(
        args.prev_workspace,
        Action::MoveWindowToWorkspace { window, target: WorkspaceTarget::Previous },
    );
    conduct::lemma_given_wanted(
        args.recent_workspace,
        Action::MoveWindowToWorkspace { window, target: WorkspaceTarget::Recent },
    );
    conduct::lemma_given_wanted(
        args.next_active_workspace_on_monitor,
        Action::MoveWindowToWorkspace { window, target: WorkspaceTarget::NextActiveInMonitor },
    );
    conduct::lemma_given_wanted(
        args.prev_active_workspace_on_monitor,
        Action::MoveWindowToWorkspace { window, target: WorkspaceTarget::PreviousActiveInMonitor },
    );
}

proof fn lemma_move_actions_count(args: InvokeMoveCommand, window: u64)
    ensures
        conduct::all_count(command_dialogue::move_actions(args, window)),
{
    lemma_move_actions(args, window);
    broadcast use {conduct::lemma_all_count_concat, conduct::lemma_all_count_given};

}

proof fn lemma_move_actions_done<E>(
    args: InvokeMoveCommand,
    actions: Seq<Action>,
    subject: Container,
    state: WmState,
    config: UserConfig,
)
    requires
        can_run_with_window(subject, state),
        conduct::same(command_dialogue::move_actions(args, subject.node), actions),
        conduct::all_count(actions),
    ensures
        conduct::does_in_turn(
            command_dialogue::run_command_dialogue::<E>(
                InvokeCommand::Move(args),
                subject,
                state,
                config,
            ),
            conduct::all_counted(actions),
        ),
{
    conduct::lemma_script_does_all::<E>(actions);
}

/// The focus moves once for each part of the command that is present: in the
/// direction, to the workspace, container or monitor that the part names, in this
/// order, and for no other.
pub proof fn law_focus_moves_part_by_part<E>(
    args: InvokeFocusCommand,
    subject: Container,
    state: WmState,
    config: UserConfig,
)
    requires
        can_run(subject, state),
    ensures
        ({
            let command = command_dialogue::run_command_dialogue::<E>(
                InvokeCommand::Focus(args),
                subject,
                state,
                config,
            );
            conduct::does_in_turn(
                command,
                conduct::all_counted(
                    conduct::given(
                        args.direction is Some,
                        Action::FocusInDirection {
                            origin: subject.node,
                            direction: args.direction->0,
                        },
                    ) + conduct::given(
                        args.workspace_in_direction is Some,
                        Action::FocusWorkspace {
                            target: WorkspaceTarget::Direction(args.workspace_in_direction->0),
                        },
                    ) + conduct::given(
                        args.container_id is Some,
                        Action::FocusContainerById { id: args.container_id->0 },
                    ) + conduct::given(
                        args.workspace is Some,
                        Action::FocusWorkspace { target: WorkspaceTarget::Name(args.workspace->0) },
                    ) + conduct::given(
                        args.workspace_on_monitor is Some,
                        Action::FocusWorkspace {
                            target: WorkspaceTarget::NameOnMonitor(args.workspace_on_monitor->0),
                        },
                    ) + conduct::given(
                        args.monitor is Some,
                        Action::FocusMonitor { index: args.monitor->0 },
                    ) + conduct::given(
                        args.next_active_workspace,
                        Action::FocusWorkspace { target: WorkspaceTarget::NextActive },
                    ) + conduct::given(
                        args.prev_active_workspace,
                        Action::FocusWorkspace { target: WorkspaceTarget::PreviousActive },
                    ) + conduct::given(
                        args.next_workspace,
                        Action::FocusWorkspace { target: WorkspaceTarget::Next },
                    ) + conduct::given(
                        args.prev_workspace,
                        Action::FocusWorkspace { target: WorkspaceTarget::Previous },
                    ) + conduct::given(
                        args.recent_workspace,
                        Action::FocusWorkspace { target: WorkspaceTarget::Recent },
                    ) + conduct::given(
                        args.next_active_workspace_on_monitor,
                        Action::FocusWorkspace { target: WorkspaceTarget::NextActiveInMonitor },
                    ) + conduct::given(
                        args.prev_active_workspace_on_monitor,
                        Action::FocusWorkspace { target: WorkspaceTarget::PreviousActiveInMonitor },
                    ),
                ),
            )
        }),
{
    lemma_focus_actions(args, subject.node);
    lemma_focus_actions_count(args, subject.node);
    lemma_focus_actions_done::<E>(
        args,
        command_dialogue::focus_actions(args, subject.node),
        subject,
        state,
        config,
    );
}

/// A window moves once for each part of the command that is present: in the
/// direction or to the workspace that the part names, in this order, and for no
/// other.
pub proof fn law_window_moves_part_by_part<E>(
    args: InvokeMoveCommand,
    subject: Container,
    state: WmState,
    config: UserConfig,
)
    requires
        can_run_with_window(subject, state),
    ensures
        ({
            let command = command_dialogue::run_command_dialogue::<E>(
                InvokeCommand::Move(args),
                subject,
                state,
                config,
            );
            conduct::does_in_turn(
                command,
                conduct::all_counted(
                    conduct::given(
                        args.direction is Some,
                        Action::MoveWindowInDirection {
                            window: subject.node,
                            direction: args.direction->0,
                        },
                    ) + conduct::given(
                        args.workspace_in_direction is Some,
                        Action::MoveWindowToWorkspace {
                            window: subject.node,
                            target: WorkspaceTarget::Direction(args.workspace_in_direction->0),
                        },
                    ) + conduct::given(
                        args.workspace is Some,
                        Action::MoveWindowToWorkspace {
                            window: subject.node,
                            target: WorkspaceTarget::Name(args.workspace->0),
                        },
                    ) + conduct::given(
                        args.workspace_on_monitor is Some,
                        Action::MoveWindowToWorkspace {
                            window: subject.node,
                            target: WorkspaceTarget::NameOnMonitor(args.workspace_on_monitor->0),
                        },
                    ) + conduct::given(
                        args.next_active_workspace,
                        Action::MoveWindowToWorkspace {
                            window: subject.node,
                            target: WorkspaceTarget::NextActive,
                        },
                    ) + conduct::given(
                        args.prev_active_workspace,
                        Action::MoveWindowToWorkspace {
                            window: subject.node,
                            target: WorkspaceTarget::PreviousActive,
                        },
                    ) + conduct::given(
                        args.next_workspace,
                        Action::MoveWindowToWorkspace {
                            window: subject.node,
                            target: WorkspaceTarget::Next,
                        },
                    ) + conduct::given(
                        args.prev_workspace,
                        Action::MoveWindowToWorkspace {
                            window: subject.node,
                            target: WorkspaceTarget::Previous,
                        },
                    ) + conduct::given(
                        args.recent_workspace,
                        Action::MoveWindowToWorkspace {
                            window: subject.node,
                            target: WorkspaceTarget::Recent,
                        },
                    ) + conduct::given(
                        args.next_active_workspace_on_monitor,
                        Action::MoveWindowToWorkspace {
                            window: subject.node,
                            target: WorkspaceTarget::NextActiveInMonitor,
                        },
                    ) + conduct::given(
                        args.prev_active_workspace_on_monitor,
                        Action::MoveWindowToWorkspace {
                            window: subject.node,
                            target: WorkspaceTarget::PreviousActiveInMonitor,
                        },
                    ),
                ),
            )
        }),
{
    lemma_move_actions(args, subject.node);
    lemma_move_actions_count(args, subject.node);
    lemma_move_actions_done::<E>(
        args,
        command_dialogue::move_actions(args, subject.node),
        subject,
        state,
        config,
    );
}

/// A window that is to move in a direction moves in that very direction, before
/// anything else.
pub proof fn law_window_moves_first_in_its_direction<E>(
    args: InvokeMoveCommand,
    direction: Direction,
    subject: Container,
    state: WmState,
    config: UserConfig,
)
    requires
        can_run_with_window(subject, state),
        args.direction == Some(direction),
    ensures
        ({
            let command = command_dialogue::run_command_dialogue::<E>(
                InvokeCommand::Move(args),
                subject,
                state,
                config,
            );
            &&& command is Ask
            &&& command->Ask_0 == CommandCall::<Seq<char>>::Act(
                Action::MoveWindowInDirection { window: subject.node, direction },
            )
        }),
{
    law_window_moves_part_by_part::<E>(args, subject, state, config);
    let move_first = Action::MoveWindowInDirection { window: subject.node, direction };
    assert(command_dialogue::move_actions(args, subject.node)[0] == move_first);
}

/// The focus that is to move in a direction moves in that very direction, before
/// anything else.
pub proof fn law_focus_moves_first_in_its_direction<E>(
    args: InvokeFocusCommand,
    direction: Direction,
    subject: Container,
    state: WmState,
    config: UserConfig,
)
    requires
        can_run(subject, state),
        args.direction == Some(direction),
    ensures
        ({
            let command = command_dialogue::run_command_dialogue::<E>(
                InvokeCommand::Focus(args),
                subject,
                state,
                config,
            );
            &&& command is Ask
            &&& command->Ask_0 == CommandCall::<Seq<char>>::Act(
                Action::FocusInDirection { origin: subject.node, direction },
            )
        }),
{
    let move_first = Action::FocusInDirection { origin: subject.node, direction };
    assert(command_dialogue::focus_actions(args, subject.node)[0] == move_first);
}

/// The workspace that moves is the one that the subject is in. A subject in none
/// is an error.
pub proof fn law_workspace_moves_with_subject<E>(
    direction: Direction,
    subject: Container,
    state: WmState,
    config: UserConfig,
)
    requires
        can_run(subject, state),
    ensures
        ({
            let command = command_dialogue::run_command_dialogue::<E>(
                InvokeCommand::MoveWorkspace { direction },
                subject,
                state,
                config,
            );
            match subject.facts.workspace {
                Some(workspace) => conduct::does_in_turn(
                    command,
                    seq![
                        conduct::counted(
                            Action::MoveWorkspaceInDirection { workspace, direction },
                        ),
                    ],
                ),
                None => command == CommandDialogue::<E>::Return(Err(WmError::NoWorkspace)),
            }
        }),
{
    if let Some(workspace) = subject.facts.workspace {
        lemma_one::<E>(Action::MoveWorkspaceInDirection { workspace, direction });
    }
}

/// A command that names no workspace gives the new settings to the workspace that
/// the subject is in. A subject in none is an error.
pub proof fn law_own_workspace_gets_new_settings<E>(
    new_config: InvokeUpdateWorkspaceConfig,
    subject: Container,
    state: WmState,
    config: UserConfig,
)
    requires
        can_run(subject, state),
    ensures
        ({
            let command = command_dialogue::run_command_dialogue::<E>(
                InvokeCommand::UpdateWorkspaceConfig { workspace: None, new_config },
                subject,
                state,
                config,
            );
            match subject.facts.workspace {
                Some(workspace) => conduct::does_in_turn(
                    command,
                    seq![
                        conduct::counted(
                            Action::UpdateWorkspaceConfig { workspace, new_config },
                        ),
                    ],
                ),
                None => command == CommandDialogue::<E>::Return(Err(WmError::NoWorkspace)),
            }
        }),
{
    if let Some(workspace) = subject.facts.workspace {
        lemma_one::<E>(Action::UpdateWorkspaceConfig { workspace, new_config });
    }
}

/// A command that names a workspace looks for the workspace of that name, and
/// gives the new settings to the one that is found. Where there is none, that is
/// an error.
pub proof fn law_named_workspace_gets_new_settings<E>(
    name: String,
    new_config: InvokeUpdateWorkspaceConfig,
    reply: Reply<E>,
    subject: Container,
    state: WmState,
    config: UserConfig,
)
    requires
        can_run(subject, state),
    ensures
        ({
            let command = command_dialogue::run_command_dialogue::<E>(
                InvokeCommand::UpdateWorkspaceConfig { workspace: Some(name), new_config },
                subject,
                state,
                config,
            );
            &&& command is Ask
            &&& command->Ask_0 == CommandCall::<Seq<char>>::Act(Action::WorkspaceByName { name })
            &&& match reply {
                Reply::Workspace(Some(workspace)) => conduct::does_in_turn(
                    command->Ask_1(reply),
                    seq![
                        conduct::counted(
                            Action::UpdateWorkspaceConfig { workspace, new_config },
                        ),
                    ],
                ),
                Reply::Workspace(None) => command->Ask_1(reply) == CommandDialogue::<E>::Return(
                    Err(WmError::WorkspaceNotFound),
                ),
                _ => command->Ask_1(reply) == CommandDialogue::<E>::Return(
                    Err(conduct::failure_of(reply)),
                ),
            }
        }),
{
    if let Reply::Workspace(Some(workspace)) = reply {
        lemma_one::<E>(Action::UpdateWorkspaceConfig { workspace, new_config });
    }
}

// ---------------------------------------------------------------------------
// Window states.

/// A window is made to float with the settings of the command, or the configured
/// ones where the command has none. One that was not placed by hand then gets the
/// size of the command, if it has any, and after that its place: the center, or the
/// very coordinates of the command, if it has any.
pub proof fn law_set_floating_floats_then_places<E>(
    centered: Option<bool>,
    shown_on_top: Option<bool>,
    x_pos: Option<i32>,
    y_pos: Option<i32>,
    width: Option<LengthValue>,
    height: Option<LengthValue>,
    window: UpdatedWindow,
    reply: Reply<E>,
    subject: Container,
    state: WmState,
    config: UserConfig,
)
    requires
        can_run_with_window(subject, state),
    ensures
        ({
            let command = command_dialogue::run_command_dialogue::<E>(
                InvokeCommand::SetFloating { centered, shown_on_top, x_pos, y_pos, width, height },
                subject,
                state,
                config,
            );
            let is_centered = match centered {
                Some(centered) => centered,
                None => config.floating_defaults.centered,
            };
            let floated = command->Ask_1(Reply::Window(window));
            &&& command is Ask
            &&& command->Ask_0 == CommandCall::<Seq<char>>::Act(
                Action::UpdateWindowState {
                    window: subject.node,
                    state: WindowState::Floating(
                        FloatingStateConfig {
                            centered: match centered {
                                Some(centered) => centered,
                                None => config.floating_defaults.centered,
                            },
                            shown_on_top: match shown_on_top {
                                Some(shown_on_top) => shown_on_top,
                                None => config.floating_defaults.shown_on_top,
                            },
                            transparency: config.floating_defaults.transparency,
                        },
                    ),
                },
            )
            &&& window.has_custom_floating_placement ==> conduct::does_in_turn(floated, seq![])
            &&& !window.has_custom_floating_placement ==> conduct::does_in_turn(
                floated,
                conduct::all_counted(
                    conduct::given(
                        width is Some || height is Some,
                        Action::SetWindowSize { window: window.node, width, height },
                    ) + conduct::given(
                        is_centered,
                        Action::SetWindowPosition {
                            window: window.node,
                            target: WindowPositionTarget::Centered,
                        },
                    ) + conduct::given(
                        !is_centered && (x_pos is Some || y_pos is Some),
                        Action::SetWindowPosition {
                            window: window.node,
                            target: WindowPositionTarget::Coordinates(x_pos, y_pos),
                        },
                    ),
                ),
            )
            &&& !(reply is Window) ==> command->Ask_1(reply) == CommandDialogue::<E>::Return(
                Err(conduct::failure_of(reply)),
            )
        }),
{
    let is_centered = match centered {
        Some(centered) => centered,
        None => config.floating_defaults.centered,
    };
    let placement = command_dialogue::Placement {
        centered: is_centered,
        x_pos,
        y_pos,
        width,
        height,
    };
    reveal(conduct::given);
    let actions = conduct::given(
        width is Some || height is Some,
        Action::SetWindowSize { window: window.node, width, height },
    ) + conduct::given(
        is_centered,
        Action::SetWindowPosition { window: window.node, target: WindowPositionTarget::Centered },
    ) + conduct::given(
        !is_centered && (x_pos is Some || y_pos is Some),
        Action::SetWindowPosition {
            window: window.node,
            target: WindowPositionTarget::Coordinates(x_pos, y_pos),
        },
    );
    if window.has_custom_floating_placement {
        conduct::lemma_script_does::<E>(Seq::empty(), Seq::empty());
    } else {
        assert(actions =~= command_dialogue::placement_actions(window, placement));
        conduct::lemma_script_does_counted::<E>(actions);
    }
}

/// A window that is made to float without being centered, and was not placed by
/// hand, ends at the very coordinates of the command.
pub proof fn law_set_floating_ends_at_coordinates<E>(
    centered: Option<bool>,
    shown_on_top: Option<bool>,
    x_pos: Option<i32>,
    y_pos: Option<i32>,
    width: Option<LengthValue>,
    height: Option<LengthValue>,
    window: UpdatedWindow,
    subject: Container,
    state: WmState,
    config: UserConfig,
)
    requires
        can_run_with_window(subject, state),
        centered == Some(false) || (centered is None && !config.floating_defaults.centered),
        x_pos is Some || y_pos is Some,
        !window.has_custom_floating_placement,
    ensures
        ({
            let command = command_dialogue::run_command_dialogue::<E>(
                InvokeCommand::SetFloating { centered, shown_on_top, x_pos, y_pos, width, height },
                subject,
                state,
                config,
            );
            let is_sized = width is Some || height is Some;
            let replies = if is_sized {
                seq![Reply::<E>::Window(window), Reply::Done, Reply::Done]
            } else {
                seq![Reply::<E>::Window(window), Reply::Done]
            };
            &&& command.questions(replies).last() == CommandCall::<Seq<char>>::Act(
                Action::SetWindowPosition {
                    window: window.node,
                    target: WindowPositionTarget::Coordinates(x_pos, y_pos),
                },
            )
            &&& command.outcome(replies) == Some(Ok::<(), WmError<E>>(()))
        }),
{
    reveal_with_fuel(Dialogue::questions, 5);
    reveal_with_fuel(Dialogue::outcome, 5);
    reveal_with_fuel(command_dialogue::script, 4);
    let is_sized = width is Some || height is Some;
    let replies = if is_sized {
        seq![Reply::<E>::Window(window), Reply::Done, Reply::Done]
    } else {
        seq![Reply::<E>::Window(window), Reply::Done]
    };
    let command = command_dialogue::run_command_dialogue::<E>(
        InvokeCommand::SetFloating { centered, shown_on_top, x_pos, y_pos, width, height },
        subject,
        state,
        config,
    );
    let placement = command_dialogue::Placement { centered: false, x_pos, y_pos, width, height };
    let place = Action::SetWindowPosition {
        window: window.node,
        target: WindowPositionTarget::Coordinates(x_pos, y_pos),
    };
    let size = Action::SetWindowSize { window: window.node, width, height };
    let actions = command_dialogue::placement_actions(window, placement);
    let left = command_dialogue::script::<E>(actions);
    let replies1 = replies.drop_first();
    assert(command->Ask_1(replies[0]) == left);
    assert(command.questions(replies) == seq![command->Ask_0] + left.questions(replies1));
    assert(command.outcome(replies) == left.outcome(replies1));
    if is_sized {
        assert(actions =~= seq![size, place]);
        assert(replies1 =~= Seq::new(2, |i: int| Reply::<E>::Done));
    } else {
        assert(actions =~= seq![place]);
        assert(replies1 =~= Seq::new(1, |i: int| Reply::<E>::Done));
    }
    crate::command_laws::law_script_performs_all::<E>(actions);
    assert(left.questions(replies1).last() == CommandCall::<Seq<char>>::Act(place));
}

/// Where floating is toggled, the window goes to the state that toggling the
/// floating state leads to. One that was not placed by hand is then centered, where
/// the command or else the configuration says so.
pub proof fn law_toggle_floating_toggles_then_centers<E>(
    centered: Option<bool>,
    shown_on_top: Option<bool>,
    toggled: WindowState,
    window: UpdatedWindow,
    reply: Reply<E>,
    subject: Container,
    state: WmState,
    config: UserConfig,
)
    requires
        can_run_with_window(subject, state),
    ensures
        ({
            let command = command_dialogue::run_command_dialogue::<E>(
                InvokeCommand::ToggleFloating { centered, shown_on_top },
                subject,
                state,
                config,
            );
            let is_centered = match centered {
                Some(centered) => centered,
                None => config.floating_defaults.centered,
            };
            let change = command->Ask_1(Reply::State(toggled));
            let changed = change->Ask_1(Reply::Window(window));
            &&& command is Ask
            &&& command->Ask_0 == CommandCall::<Seq<char>>::Act(
                Action::ToggledState {
                    window: subject.node,
                    target: WindowState::Floating(
                        FloatingStateConfig {
                            centered: match centered {
                                Some(centered) => centered,
                                None => config.floating_defaults.centered,
                            },
                            shown_on_top: match shown_on_top {
                                Some(shown_on_top) => shown_on_top,
                                None => config.floating_defaults.shown_on_top,
                            },
                            transparency: config.floating_defaults.transparency,
                        },
                    ),
                },
            )
            &&& change is Ask
            &&& change->Ask_0 == CommandCall::<Seq<char>>::Act(
                Action::UpdateWindowState { window: subject.node, state: toggled },
            )
            &&& conduct::does_in_turn(
                changed,
                conduct::all_counted(
                    conduct::given(
                        is_centered && !window.has_custom_floating_placement,
                        Action::SetWindowPosition {
                            window: window.node,
                            target: WindowPositionTarget::Centered,
                        },
                    ),
                ),
            )
            &&& !(reply is State) ==> command->Ask_1(reply) == CommandDialogue::<E>::Return(
                Err(conduct::failure_of(reply)),
            )
            &&& !(reply is Window) ==> change->Ask_1(reply) == CommandDialogue::<E>::Return(
                Err(conduct::failure_of(reply)),
            )
        }),
{
    let is_centered = match centered {
        Some(centered) => centered,
        None => config.floating_defaults.centered,
    };
    let placement = command_dialogue::Placement {
        centered: is_centered,
        x_pos: None,
        y_pos: None,
        width: None,
        height: None,
    };
    reveal(conduct::given);
    let actions = conduct::given(
        is_centered && !window.has_custom_floating_placement,
        Action::SetWindowPosition { window: window.node, target: WindowPositionTarget::Centered },
    );
    assert(actions =~= command_dialogue::placement_actions(window, placement));
    conduct::lemma_script_does_counted::<E>(actions);
}

/// A window is made fullscreen with the settings of the command, or the configured
/// ones where the command has none.
pub proof fn law_set_fullscreen_changes_state<E>(
    maximized: Option<bool>,
    shown_on_top: Option<bool>,
    window: UpdatedWindow,
    reply: Reply<E>,
    subject: Container,
    state: WmState,
    config: UserConfig,
)
    requires
        can_run_with_window(subject, state),
    ensures
        ({
            let command = command_dialogue::run_command_dialogue::<E>(
                InvokeCommand::SetFullscreen { maximized, shown_on_top },
                subject,
                state,
                config,
            );
            &&& command is Ask
            &&& command->Ask_0 == CommandCall::<Seq<char>>::Act(
                Action::UpdateWindowState {
                    window: subject.node,
                    state: WindowState::Fullscreen(
                        FullscreenStateConfig {
                            maximized: match maximized {
                                Some(maximized) => maximized,
                                None => config.fullscreen_defaults.maximized,
                            },
                            shown_on_top: match shown_on_top {
                                Some(shown_on_top) => shown_on_top,
                                None => config.fullscreen_defaults.shown_on_top,
                            },
                            transparency: config.fullscreen_defaults.transparency,
                        },
                    ),
                },
            )
            &&& command->Ask_1(Reply::Window(window)) == CommandDialogue::<E>::Return(Ok(()))
            &&& !(reply is Window) ==> command->Ask_1(reply) == CommandDialogue::<E>::Return(
                Err(conduct::failure_of(reply)),
            )
        }),
{
}

/// A window is minimized.
pub proof fn law_set_minimized_changes_state<E>(
    window: UpdatedWindow,
    reply: Reply<E>,
    subject: Container,
    state: WmState,
    config: UserConfig,
)
    requires
        can_run_with_window(subject, state),
    ensures
        ({
            let command = command_dialogue::run_command_dialogue::<E>(
                InvokeCommand::SetMinimized,
                subject,
                state,
                config,
            );
            &&& command is Ask
            &&& command->Ask_0 == CommandCall::<Seq<char>>::Act(
                Action::UpdateWindowState {
                    window: subject.node,
                    state: WindowState::Minimized,
                },
            )
            &&& command->Ask_1(Reply::Window(window)) == CommandDialogue::<E>::Return(Ok(()))
            &&& !(reply is Window) ==> command->Ask_1(reply) == CommandDialogue::<E>::Return(
                Err(conduct::failure_of(reply)),
            )
        }),
{
}

/// A window is made to tile.
pub proof fn law_set_tiling_changes_state<E>(
    window: UpdatedWindow,
    reply: Reply<E>,
    subject: Container,
    state: WmState,
    config: UserConfig,
)
    requires
        can_run_with_window(subject, state),
    ensures
        ({
            let command = command_dialogue::run_command_dialogue::<E>(
                InvokeCommand::SetTiling,
                subject,
                state,
                config,
            );
            &&& command is Ask
            &&& command->Ask_0 == CommandCall::<Seq<char>>::Act(
                Action::UpdateWindowState {
                    window: subject.node,
                    state: WindowState::Tiling,
                },
            )
            &&& command->Ask_1(Reply::Window(window)) == CommandDialogue::<E>::Return(Ok(()))
            &&& !(reply is Window) ==> command->Ask_1(reply) == CommandDialogue::<E>::Return(
                Err(conduct::failure_of(reply)),
            )
        }),
{
}

/// Where fullscreen is toggled, the window goes to the state that toggling the
/// fullscreen state leads to.
pub proof fn law_toggle_fullscreen_changes_state<E>(
    maximized: Option<bool>,
    shown_on_top: Option<bool>,
    toggled: WindowState,
    window: UpdatedWindow,
    reply: Reply<E>,
    subject: Container,
    state: WmState,
    config: UserConfig,
)
    requires
        can_run_with_window(subject, state),
    ensures
        ({
            let command = command_dialogue::run_command_dialogue::<E>(
                InvokeCommand::ToggleFullscreen { maximized, shown_on_top },
                subject,
                state,
                config,
            );
            let change = command->Ask_1(Reply::State(toggled));
            &&& command is Ask
            &&& command->Ask_0 == CommandCall::<Seq<char>>::Act(
                Action::ToggledState {
                    window: subject.node,
                    target: WindowState::Fullscreen(
                        FullscreenStateConfig {
                            maximized: match maximized {
                                Some(maximized) => maximized,
                                None => config.fullscreen_defaults.maximized,
                            },
                            shown_on_top: match shown_on_top {
                                Some(shown_on_top) => shown_on_top,
                                None => config.fullscreen_defaults.shown_on_top,
                            },
                            transparency: config.fullscreen_defaults.transparency,
                        },
                    ),
                },
            )
            &&& change is Ask
            &&& change->Ask_0 == CommandCall::<Seq<char>>::Act(
                Action::UpdateWindowState { window: subject.node, state: toggled },
            )
            &&& change->Ask_1(Reply::Window(window)) == CommandDialogue::<E>::Return(Ok(()))
            &&& !(reply is State) ==> command->Ask_1(reply) == CommandDialogue::<E>::Return(
                Err(conduct::failure_of(reply)),
            )
            &&& !(reply is Window) ==> change->Ask_1(reply) == CommandDialogue::<E>::Return(
                Err(conduct::failure_of(reply)),
            )
        }),
{
}

/// Where minimizing is toggled, the window goes to the state that this leads to.
pub proof fn law_toggle_minimized_changes_state<E>(
    toggled: WindowState,
    window: UpdatedWindow,
    reply: Reply<E>,
    subject: Container,
    state: WmState,
    config: UserConfig,
)
    requires
        can_run_with_window(subject, state),
    ensures
        ({
            let command = command_dialogue::run_command_dialogue::<E>(
                InvokeCommand::ToggleMinimized,
                subject,
                state,
                config,
            );
            let change = command->Ask_1(Reply::State(toggled));
            &&& command is Ask
            &&& command->Ask_0 == CommandCall::<Seq<char>>::Act(
                Action::ToggledState {
                    window: subject.node,
                    target: WindowState::Minimized,
                },
            )
            &&& change is Ask
            &&& change->Ask_0 == CommandCall::<Seq<char>>::Act(
                Action::UpdateWindowState { window: subject.node, state: toggled },
            )
            &&& change->Ask_1(Reply::Window(window)) == CommandDialogue::<E>::Return(Ok(()))
            &&& !(reply is State) ==> command->Ask_1(reply) == CommandDialogue::<E>::Return(
                Err(conduct::failure_of(reply)),
            )
            &&& !(reply is Window) ==> change->Ask_1(reply) == CommandDialogue::<E>::Return(
                Err(conduct::failure_of(reply)),
            )
        }),
{
}

/// Where tiling is toggled, the window goes to the state that this leads to.
pub proof fn law_toggle_tiling_changes_state<E>(
    toggled: WindowState,
    window: UpdatedWindow,
    reply: Reply<E>,
    subject: Container,
    state: WmState,
    config: UserConfig,
)
    requires
        can_run_with_window(subject, state),
    ensures
        ({
            let command = command_dialogue::run_command_dialogue::<E>(
                InvokeCommand::ToggleTiling,
                subject,
                state,
                config,
            );
            let change = command->Ask_1(Reply::State(toggled));
            &&& command is Ask
            &&& command->Ask_0 == CommandCall::<Seq<char>>::Act(
                Action::ToggledState {
                    window: subject.node,
                    target: WindowState::Tiling,
                },
            )
            &&& change is Ask
            &&& change->Ask_0 == CommandCall::<Seq<char>>::Act(
                Action::UpdateWindowState { window: subject.node, state: toggled },
            )
            &&& change->Ask_1(Reply::Window(window)) == CommandDialogue::<E>::Return(Ok(()))
            &&& !(reply is State) ==> command->Ask_1(reply) == CommandDialogue::<E>::Return(
                Err(conduct::failure_of(reply)),
            )
            &&& !(reply is Window) ==> change->Ask_1(reply) == CommandDialogue::<E>::Return(
                Err(conduct::failure_of(reply)),
            )
        }),
{
}

// ---------------------------------------------------------------------------
// Title bars and transparency.

/// On Windows the title bar is shown where the command says `Shown`, and hidden
/// where it says `Hidden`. A failure is passed over.
pub proof fn law_title_bar_is_shown_or_hidden<E>(
    visibility: TitleBarVisibility,
    subject: Container,
    state: WmState,
    config: UserConfig,
)
    requires
        can_run_with_window(subject, state),
        state.platform is Windows,
    ensures
        ({
            let command = command_dialogue::run_command_dialogue::<E>(
                InvokeCommand::SetTitleBarVisibility { visibility },
                subject,
                state,
                config,
            );
            &&& visibility is Shown ==> conduct::does_in_turn(
                command,
                seq![
                    conduct::passed_over(
                        Action::SetTitleBarVisibility { window: subject.node, visible: true },
                    ),
                ],
            )
            &&& visibility is Hidden ==> conduct::does_in_turn(
                command,
                seq![
                    conduct::passed_over(
                        Action::SetTitleBarVisibility { window: subject.node, visible: false },
                    ),
                ],
            )
        }),
{
    lemma_one::<E>(
        Action::SetTitleBarVisibility { window: subject.node, visible: visibility is Shown },
    );
}

/// On Windows the transparency is set to the opacity of the command, if it has
/// one, and then adjusted by its delta, if it has one. Failures are passed over.
pub proof fn law_transparency_is_set_then_adjusted<E>(
    args: InvokeSetTransparencyCommand,
    subject: Container,
    state: WmState,
    config: UserConfig,
)
    requires
        can_run_with_window(subject, state),
        state.platform is Windows,
    ensures
        ({
            let command = command_dialogue::run_command_dialogue::<E>(
                InvokeCommand::SetTransparency(args),
                subject,
                state,
                config,
            );
            conduct::does_in_turn(
                command,
                (conduct::given(
                    args.opacity is Some,
                    Action::SetTransparency {
                        window: subject.node,
                        opacity: Opacity::Value(args.opacity->0),
                    },
                ) + conduct::given(
                    args.opacity_delta is Some,
                    Action::AdjustTransparency {
                        window: subject.node,
                        delta: args.opacity_delta->0,
                    },
                )).map_values(|action: Action| conduct::passed_over(action)),
            )
        }),
{
    reveal(conduct::given);
    let actions = conduct::given(
        args.opacity is Some,
        Action::SetTransparency { window: subject.node, opacity: Opacity::Value(args.opacity->0) },
    ) + conduct::given(
        args.opacity_delta is Some,
        Action::AdjustTransparency { window: subject.node, delta: args.opacity_delta->0 },
    );
    assert(actions =~= command_dialogue::transparency_actions(args, subject.node));
    conduct::lemma_script_does::<E>(
        actions,
        actions.map_values(|action: Action| conduct::passed_over(action)),
    );
}

/// On Windows a window with a transparency pin loses it, and all effects are
/// brought up to date. A window without one is drawn with the opacity of the
/// command, or opaque, and pinned at that.
pub proof fn law_transparency_pin_is_put_on_or_off<E>(
    opacity: Option<OpacityValue>,
    subject: Container,
    state: WmState,
    config: UserConfig,
)
    requires
        can_run_with_window(subject, state),
        state.platform is Windows,
    ensures
        ({
            let command = command_dialogue::run_command_dialogue::<E>(
                InvokeCommand::ToggleTransparencyPin { opacity },
                subject,
                state,
                config,
            );
            let is_pinned = subject.facts.window->0.is_transparency_pinned;
            let drawn = match opacity {
                Some(opacity) => Opacity::Value(opacity),
                None => Opacity::Alpha(255),
            };
            &&& is_pinned ==> conduct::does_in_turn(
                command,
                seq![
                    conduct::counted(
                        Action::SetTransparencyPin { window: subject.node, pin: None },
                    ),
                    conduct::counted(Action::QueueAllEffectsUpdate),
                ],
            )
            &&& !is_pinned ==> conduct::does_in_turn(
                command,
                seq![
                    conduct::passed_over(
                        Action::SetTransparency { window: subject.node, opacity: drawn },
                    ),
                    conduct::counted(
                        Action::SetTransparencyPin { window: subject.node, pin: Some(drawn) },
                    ),
                ],
            )
        }),
{
    let drawn = match opacity {
        Some(opacity) => Opacity::Value(opacity),
        None => Opacity::Alpha(255),
    };
    lemma_two::<E>(
        Action::SetTransparencyPin { window: subject.node, pin: None },
        Action::QueueAllEffectsUpdate,
    );
    lemma_two::<E>(
        Action::SetTransparency { window: subject.node, opacity: drawn },
        Action::SetTransparencyPin { window: subject.node, pin: Some(drawn) },
    );
}

// ---------------------------------------------------------------------------
// Closing a window.

/// Where closing is not animated, or the platform is not Windows, the window is
/// closed at once. A failure is passed over.
pub proof fn law_window_closes_at_once_without_animation<E>(
    subject: Container,
    state: WmState,
    config: UserConfig,
)
    requires
        can_run_with_window(subject, state),
        !(state.platform is Windows) || !config.window_close_animation,
    ensures
        ({
            let command = command_dialogue::run_command_dialogue::<E>(
                InvokeCommand::Close,
                subject,
                state,
                config,
            );
            conduct::does_in_turn(
                command,
                seq![conduct::passed_over(Action::CloseWindow { window: subject.node })],
            )
        }),
{
    lemma_one::<E>(Action::CloseWindow { window: subject.node });
}

/// Where closing is animated, the surrogate is drawn over the rectangle of the
/// window with its borders. Once it is known to be up, the window is cloaked, and
/// then detached. Where the rectangle or the borders cannot be had, or no surrogate
/// is up, the window is closed at once.
pub proof fn law_window_closes_behind_surrogate<E>(
    rect: Rect,
    delta: RectDelta,
    frame: Rect,
    error: E,
    reply: Reply<E>,
    subject: Container,
    state: WmState,
    config: UserConfig,
)
    requires
        can_run_with_window(subject, state),
        state.platform is Windows,
        config.window_close_animation,
    ensures
        ({
            let command = command_dialogue::run_command_dialogue::<E>(
                InvokeCommand::Close,
                subject,
                state,
                config,
            );
            let closing = seq![conduct::passed_over(Action::CloseWindow { window: subject.node })];
            let framed = command->Ask_1(Reply::Rect(rect));
            let applied = framed->Ask_1(Reply::Delta(delta));
            let animated = applied->Ask_1(Reply::Rect(frame));
            let checked = animated->Ask_1(Reply::Done);
            &&& command is Ask
            &&& command->Ask_0 == CommandCall::<Seq<char>>::Act(
                Action::WindowRect { window: subject.node },
            )
            &&& conduct::does_in_turn(command->Ask_1(Reply::Failed(error)), closing)
            &&& !(reply is Rect) && !(reply is Failed) ==> command->Ask_1(reply)
                == CommandDialogue::<E>::Return(Err(WmError::UnexpectedReply))
            &&& framed is Ask
            &&& framed->Ask_0 == CommandCall::<Seq<char>>::Act(
                Action::TotalBorderDelta { window: subject.node },
            )
            &&& conduct::does_in_turn(framed->Ask_1(Reply::Failed(error)), closing)
            &&& !(reply is Delta) && !(reply is Failed) ==> framed->Ask_1(reply)
                == CommandDialogue::<E>::Return(Err(WmError::UnexpectedReply))
            &&& applied is Ask
            &&& applied->Ask_0 == CommandCall::<Seq<char>>::Act(
                Action::ApplyDelta { rect, delta },
            )
            &&& !(reply is Rect) ==> applied->Ask_1(reply) == CommandDialogue::<E>::Return(
                Err(conduct::failure_of(reply)),
            )
            &&& animated is Ask
            &&& animated->Ask_0 matches CommandCall::Act(
                Action::StartCloseAnimation { window, window_id, rect: over, .. },
            ) && window == subject.node && window_id == subject.id && over == frame
            &&& !(reply is Done) ==> animated->Ask_1(reply) == CommandDialogue::<E>::Return(
                Err(conduct::failure_of(reply)),
            )
            &&& checked is Ask
            &&& checked->Ask_0 == CommandCall::<Seq<char>>::Act(
                Action::HasCloseAnimation { window_id: subject.id },
            )
            &&& conduct::does_in_turn(
                checked->Ask_1(Reply::Flag(true)),
                seq![
                    conduct::passed_over(
                        Action::SetCloaked { window: subject.node, cloaked: true },
                    ),
                    conduct::counted(Action::DetachWindowForClose { window: subject.node }),
                ],
            )
            &&& conduct::does_in_turn(checked->Ask_1(Reply::Flag(false)), closing)
            &&& !(reply is Flag) ==> checked->Ask_1(reply) == CommandDialogue::<E>::Return(
                Err(conduct::failure_of(reply)),
            )
        }),
{
    lemma_one::<E>(Action::CloseWindow { window: subject.node });
    lemma_two::<E>(
        Action::SetCloaked { window: subject.node, cloaked: true },
        Action::DetachWindowForClose { window: subject.node },
    );
}

/// The surrogate of a closing window is drawn with the effects for the focused
/// window exactly where the window has the focus, and otherwise with those for other
/// windows: with their opacity and corners where these are enabled, and else opaque
/// and with the default corners. Where nothing has focus, the nil ID counts as
/// focused.
pub proof fn law_surrogate_has_effects_of_its_window<E>(
    rect: Rect,
    delta: RectDelta,
    frame: Rect,
    subject: Container,
    state: WmState,
    config: UserConfig,
)
    requires
        can_run_with_window(subject, state),
        state.platform is Windows,
        config.window_close_animation,
    ensures
        ({
            let command = command_dialogue::run_command_dialogue::<E>(
                InvokeCommand::Close,
                subject,
                state,
                config,
            );
            let calls = command.questions(
                seq![Reply::<E>::Rect(rect), Reply::Delta(delta), Reply::Rect(frame)],
            );
            let focused = config.focused_window;
            let other = config.other_windows;
            let has_focus = match state.focused_container {
                Some(container) => container.id == subject.id,
                None => subject.id.value == 0,
            };
            &&& calls.len() == 4
            &&& match calls[3] {
                CommandCall::Act(
                    Action::StartCloseAnimation { opacity, corner_style, .. },
                ) => {
                    &&& has_focus && focused.transparency.enabled ==> opacity
                        == focused.transparency.alpha
                    &&& has_focus && !focused.transparency.enabled ==> opacity == 255
                    &&& has_focus && focused.corner_style.enabled ==> corner_style
                        == focused.corner_style.style
                    &&& has_focus && !focused.corner_style.enabled ==> corner_style
                        == CornerStyle::Default
                    &&& !has_focus && other.transparency.enabled ==> opacity
                        == other.transparency.alpha
                    &&& !has_focus && !other.transparency.enabled ==> opacity == 255
                    &&& !has_focus && other.corner_style.enabled ==> corner_style
                        == other.corner_style.style
                    &&& !has_focus && !other.corner_style.enabled ==> corner_style
                        == CornerStyle::Default
                },
                _ => false,
            }
        }),
{
    reveal_with_fuel(Dialogue::questions, 5);
}

// ---------------------------------------------------------------------------
// Programs, and the window manager itself.

/// The command line that a program is run with.
pub open spec fn line_of<E>(command: CommandDialogue<E>) -> Seq<char> {
    command->Ask_0->ShellExec_command
}

/// Running no words at all runs the empty line, and one more word comes behind a
/// space, or first. The window is hidden exactly where the command says so.
pub proof fn law_program_is_run_with_words_in_order<E>(
    words: Vec<String>,
    more: Vec<String>,
    word: String,
    hide_window: bool,
    subject: Container,
    state: WmState,
    config: UserConfig,
    reply: Reply<E>,
)
    requires
        can_run(subject, state),
        more@ == words@.push(word),
    ensures
        ({
            let before = command_dialogue::run_command_dialogue::<E>(
                InvokeCommand::ShellExec { hide_window, command: words },
                subject,
                state,
                config,
            );
            let after = command_dialogue::run_command_dialogue::<E>(
                InvokeCommand::ShellExec { hide_window, command: more },
                subject,
                state,
                config,
            );
            &&& before is Ask && before->Ask_0 is ShellExec
            &&& before->Ask_0->ShellExec_hide_window == hide_window
            &&& before->Ask_1(Reply::Done) == CommandDialogue::<E>::Return(Ok(()))
            &&& !(reply is Done) ==> before->Ask_1(reply) == CommandDialogue::<E>::Return(
                Err(conduct::failure_of(reply)),
            )
            &&& words@.len() == 0 ==> line_of(before) == Seq::<char>::empty()
            &&& words@.len() == 0 ==> line_of(after) == word@
            &&& words@.len() > 0 ==> line_of(after) == line_of(before) + seq![' '] + word@
        }),
{
    reveal_strlit(" ");
    assert(" "@ =~= seq![' ']);
    assert(more@.drop_last() =~= words@);
}

/// The tiling direction is toggled at the subject.
pub proof fn law_subject_turns_its_tiling_direction<E>(
    subject: Container,
    state: WmState,
    config: UserConfig,
)
    requires
        can_run(subject, state),
    ensures
        ({
            let command = command_dialogue::run_command_dialogue::<E>(
                InvokeCommand::ToggleTilingDirection,
                subject,
                state,
                config,
            );
            conduct::does_in_turn(
                command,
                seq![conduct::counted(Action::ToggleTilingDirection { container: subject.node })],
            )
        }),
{
    lemma_one::<E>(Action::ToggleTilingDirection { container: subject.node });
}

/// The subject gets the very tiling direction of the command.
pub proof fn law_subject_gets_tiling_direction<E>(
    direction: TilingDirection,
    subject: Container,
    state: WmState,
    config: UserConfig,
)
    requires
        can_run(subject, state),
    ensures
        ({
            let command = command_dialogue::run_command_dialogue::<E>(
                InvokeCommand::SetTilingDirection { tiling_direction: direction },
                subject,
                state,
                config,
            );
            conduct::does_in_turn(
                command,
                seq![
                    conduct::counted(
                        Action::SetTilingDirection { container: subject.node, direction },
                    ),
                ],
            )
        }),
{
    lemma_one::<E>(Action::SetTilingDirection { container: subject.node, direction });
}

/// The focus cycles through the window states, without those that the command
/// omits.
pub proof fn law_focus_cycles_without_omitted<E>(
    omit_floating: bool,
    omit_fullscreen: bool,
    omit_minimized: bool,
    omit_tiling: bool,
    subject: Container,
    state: WmState,
    config: UserConfig,
)
    requires
        can_run(subject, state),
    ensures
        ({
            let command = command_dialogue::run_command_dialogue::<E>(
                InvokeCommand::WmCycleFocus {
                    omit_floating,
                    omit_fullscreen,
                    omit_minimized,
                    omit_tiling,
                },
                subject,
                state,
                config,
            );
            conduct::does_in_turn(
                command,
                seq![
                    conduct::counted(
                        Action::CycleFocus {
                            omit_floating,
                            omit_fullscreen,
                            omit_minimized,
                            omit_tiling,
                        },
                    ),
                ],
            )
        }),
{
    lemma_one::<E>(
        Action::CycleFocus { omit_floating, omit_fullscreen, omit_minimized, omit_tiling },
    );
}

/// The binding mode of that name is disabled.
pub proof fn law_binding_mode_is_disabled_by_name<E>(
    name: String,
    subject: Container,
    state: WmState,
    config: UserConfig,
)
    requires
        can_run(subject, state),
    ensures
        ({
            let command = command_dialogue::run_command_dialogue::<E>(
                InvokeCommand::WmDisableBindingMode { name },
                subject,
                state,
                config,
            );
            conduct::does_in_turn(
                command,
                seq![conduct::counted(Action::DisableBindingMode { name })],
            )
        }),
{
    lemma_one::<E>(Action::DisableBindingMode { name });
}

/// The binding mode of that name is enabled.
pub proof fn law_binding_mode_is_enabled_by_name<E>(
    name: String,
    subject: Container,
    state: WmState,
    config: UserConfig,
)
    requires
        can_run(subject, state),
    ensures
        ({
            let command = command_dialogue::run_command_dialogue::<E>(
                InvokeCommand::WmEnableBindingMode { name },
                subject,
                state,
                config,
            );
            conduct::does_in_turn(
                command,
                seq![conduct::counted(Action::EnableBindingMode { name })],
            )
        }),
{
    lemma_one::<E>(Action::EnableBindingMode { name });
}

/// An exit is announced.
pub proof fn law_exit_is_announced<E>(
    subject: Container,
    state: WmState,
    config: UserConfig,
)
    requires
        can_run(subject, state),
    ensures
        ({
            let command = command_dialogue::run_command_dialogue::<E>(
                InvokeCommand::WmExit,
                subject,
                state,
                config,
            );
            conduct::does_in_turn(
                command,
                seq![conduct::counted(Action::EmitExit)],
            )
        }),
{
    lemma_one::<E>(Action::EmitExit);
}

/// A redraw is of the root, and so of everything.
pub proof fn law_redraw_is_of_root<E>(
    subject: Container,
    state: WmState,
    config: UserConfig,
)
    requires
        can_run(subject, state),
    ensures
        ({
            let command = command_dialogue::run_command_dialogue::<E>(
                InvokeCommand::WmRedraw,
                subject,
                state,
                config,
            );
            conduct::does_in_turn(
                command,
                seq![conduct::counted(Action::QueueRedraw { container: state.root_node })],
            )
        }),
{
    lemma_one::<E>(Action::QueueRedraw { container: state.root_node });
}

/// The configuration is reloaded.
pub proof fn law_configuration_is_reloaded<E>(
    subject: Container,
    state: WmState,
    config: UserConfig,
)
    requires
        can_run(subject, state),
    ensures
        ({
            let command = command_dialogue::run_command_dialogue::<E>(
                InvokeCommand::WmReloadConfig,
                subject,
                state,
                config,
            );
            conduct::does_in_turn(
                command,
                seq![conduct::counted(Action::ReloadConfig)],
            )
        }),
{
    lemma_one::<E>(Action::ReloadConfig);
}

/// The pause is toggled, also by a window manager that is paused.
pub proof fn law_pause_is_toggled_from_pause_too<E>(
    subject: Container,
    state: WmState,
    config: UserConfig,
)
    requires
        !subject.facts.is_detached,
    ensures
        ({
            let command = command_dialogue::run_command_dialogue::<E>(
                InvokeCommand::WmTogglePause,
                subject,
                state,
                config,
            );
            conduct::does_in_turn(
                command,
                seq![conduct::counted(Action::TogglePause)],
            )
        }),
{
    lemma_one::<E>(Action::TogglePause);
}

} // verus!
