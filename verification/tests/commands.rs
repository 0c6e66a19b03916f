use wm::blur_style::BlurStyle;
use wm::call::{Action, CommandCall, Reply, Step, UpdatedWindow};
use wm::command::{
    InvokeAdjustBordersCommand, InvokeCommand, InvokeFocusCommand, InvokeMoveCommand,
    InvokePositionCommand, InvokeResizeCommand, InvokeSetTransparencyCommand, InvokeSizeCommand,
    InvokeUpdateWorkspaceConfig,
};
use wm::config::{
    CornerStyleEffectConfig, TransparencyEffectConfig, UserConfig, WindowEffectConfig,
};
use wm::error::WmError;
use wm::run_command::CommandStep;
use wm::state::{Container, ContainerFacts, Platform, WindowFacts, WmState};
use wm::values::{
    ContainerId, CornerStyle, FloatingStateConfig, FullscreenStateConfig, LengthUnit, LengthValue,
    Opacity, OpacityDelta, OpacityValue, Rect, RectDelta, StateTransparency, TilingDirection,
    TitleBarVisibility, WindowPositionTarget, WindowState,
};
use wm::wm::WindowManager;
use wm::workspace_target::{Direction, WorkspaceTarget};

const NODE: u64 = 11;
const ROOT: u64 = 1;
const WORKSPACE: u64 = 5;

fn length(amount: f32) -> LengthValue {
    LengthValue { amount_bits: amount.to_bits(), unit: LengthUnit::Pixel }
}

fn opacity(amount: f32) -> OpacityValue {
    OpacityValue { bits: amount.to_bits() }
}

fn transparency() -> StateTransparency {
    StateTransparency { enabled: true, opacity: opacity(0.5) }
}

fn config() -> UserConfig {
    UserConfig {
        auto_set_tiling_direction: true,
        window_close_animation: true,
        focused_window: WindowEffectConfig {
            transparency: TransparencyEffectConfig { enabled: true, alpha: 200 },
            corner_style: CornerStyleEffectConfig { enabled: true, style: CornerStyle::Rounded },
        },
        other_windows: WindowEffectConfig {
            transparency: TransparencyEffectConfig { enabled: false, alpha: 100 },
            corner_style: CornerStyleEffectConfig { enabled: false, style: CornerStyle::Square },
        },
        floating_defaults: FloatingStateConfig {
            centered: true,
            shown_on_top: false,
            transparency: transparency(),
        },
        fullscreen_defaults: FullscreenStateConfig {
            maximized: false,
            shown_on_top: true,
            transparency: transparency(),
        },
    }
}

fn window() -> Container {
    Container {
        node: NODE,
        id: ContainerId { value: 42 },
        facts: ContainerFacts {
            is_detached: false,
            window: Some(WindowFacts {
                state: WindowState::Tiling,
                is_transparency_pinned: false,
            }),
            workspace: Some(WORKSPACE),
        },
    }
}

fn split() -> Container {
    Container {
        node: NODE,
        id: ContainerId { value: 43 },
        facts: ContainerFacts { is_detached: false, window: None, workspace: None },
    }
}

fn state() -> WmState {
    WmState {
        platform: Platform::Windows,
        is_paused: false,
        has_pending_changes: false,
        focused_container: None,
        root_node: ROOT,
    }
}

fn mac_state() -> WmState {
    WmState { platform: Platform::MacOs, ..state() }
}

type Outcome = Option<Result<(), WmError<&'static str>>>;

/// The calls that are asked for when these replies are given, and the end.
fn play(
    first: CommandStep<&'static str>,
    replies: Vec<Reply<&'static str>>,
) -> (Vec<CommandCall<String>>, Outcome) {
    let mut calls = Vec::new();
    let mut replies = replies.into_iter();
    let mut step = first;
    loop {
        match step {
            Step::Call(call, run) => {
                calls.push(call);
                match replies.next() {
                    Some(reply) => step = run.resume(reply),
                    None => return (calls, None),
                }
            }
            Step::Finished(result) => return (calls, Some(result)),
        }
    }
}

fn run(command: InvokeCommand, replies: Vec<Reply<&'static str>>) -> (Vec<Action>, Outcome) {
    run_with(command, window(), state(), replies)
}

fn run_with(
    command: InvokeCommand,
    subject: Container,
    state: WmState,
    replies: Vec<Reply<&'static str>>,
) -> (Vec<Action>, Outcome) {
    let (calls, outcome) =
        play(WindowManager::run_command(&command, subject, &state, &config()), replies);
    let mut actions = Vec::new();
    for call in calls {
        match call {
            CommandCall::Act(action) => actions.push(action),
            CommandCall::ShellExec { .. } => panic!("no program was to be run"),
        }
    }
    (actions, outcome)
}

fn no_focus() -> InvokeFocusCommand {
    InvokeFocusCommand {
        direction: None,
        workspace_in_direction: None,
        container_id: None,
        workspace: None,
        workspace_on_monitor: None,
        monitor: None,
        next_active_workspace: false,
        prev_active_workspace: false,
        next_workspace: false,
        prev_workspace: false,
        recent_workspace: false,
        next_active_workspace_on_monitor: false,
        prev_active_workspace_on_monitor: false,
    }
}

fn no_move() -> InvokeMoveCommand {
    InvokeMoveCommand {
        direction: None,
        workspace_in_direction: None,
        workspace: None,
        workspace_on_monitor: None,
        next_active_workspace: false,
        prev_active_workspace: false,
        next_workspace: false,
        prev_workspace: false,
        recent_workspace: false,
        next_active_workspace_on_monitor: false,
        prev_active_workspace_on_monitor: false,
    }
}

fn new_config() -> InvokeUpdateWorkspaceConfig {
    InvokeUpdateWorkspaceConfig {
        name: Some("2".to_string()),
        display_name: None,
        bind_to_monitor: Some(1),
        keep_alive: Some(true),
    }
}

#[test]
fn blur_is_acrylic_by_default() {
    assert_eq!(BlurStyle::default(), BlurStyle::Acrylic);
    assert_ne!(BlurStyle::default(), BlurStyle::Blur);
}

#[test]
fn paused_manager_ignores_commands() {
    let paused = WmState { is_paused: true, ..state() };
    assert_eq!(
        run_with(InvokeCommand::WmExit, window(), paused, vec![]),
        (vec![], Some(Ok(())))
    );
    let mut detached = window();
    detached.facts.is_detached = true;
    assert_eq!(
        run_with(InvokeCommand::Close, detached, paused, vec![]),
        (vec![], Some(Ok(())))
    );
}

#[test]
fn pause_is_toggled_while_paused() {
    for is_paused in [false, true] {
        assert_eq!(
            run_with(
                InvokeCommand::WmTogglePause,
                window(),
                WmState { is_paused, ..state() },
                vec![Reply::Done]
            ),
            (vec![Action::TogglePause], Some(Ok(())))
        );
    }
}

#[test]
fn detached_subject_is_refused() {
    let mut detached = window();
    detached.facts.is_detached = true;
    assert_eq!(
        run_with(InvokeCommand::WmExit, detached, state(), vec![]),
        (vec![], Some(Err(WmError::SubjectDetached)))
    );
}

#[test]
fn window_commands_skip_other_containers() {
    let commands = vec![
        InvokeCommand::Close,
        InvokeCommand::Ignore,
        InvokeCommand::SetTiling,
        InvokeCommand::ToggleFloating { centered: None, shown_on_top: None },
        InvokeCommand::ToggleTransparencyPin { opacity: None },
        InvokeCommand::Move(InvokeMoveCommand { next_workspace: true, ..no_move() }),
    ];
    for command in commands {
        assert_eq!(run_with(command, split(), state(), vec![]), (vec![], Some(Ok(()))));
    }
}

#[test]
fn borders_that_are_left_out_are_zero() {
    let (actions, outcome) = run(
        InvokeCommand::AdjustBorders(InvokeAdjustBordersCommand {
            top: Some(length(2.0)),
            right: None,
            bottom: None,
            left: Some(length(3.5)),
        }),
        vec![Reply::Done, Reply::Done],
    );
    assert_eq!(
        actions,
        vec![
            Action::SetBorderDelta {
                window: NODE,
                delta: RectDelta {
                    left: length(3.5),
                    top: length(2.0),
                    right: length(0.0),
                    bottom: length(0.0),
                },
            },
            Action::QueueRedraw { container: NODE },
        ]
    );
    assert_eq!(outcome, Some(Ok(())));
}

#[test]
fn focus_goes_through_all_parts_in_order() {
    let all = InvokeFocusCommand {
        direction: Some(Direction::Left),
        workspace_in_direction: Some(Direction::Up),
        container_id: Some(ContainerId { value: 9 }),
        workspace: Some("1".to_string()),
        workspace_on_monitor: Some("web".to_string()),
        monitor: Some(2),
        next_active_workspace: true,
        prev_active_workspace: true,
        next_workspace: true,
        prev_workspace: true,
        recent_workspace: true,
        next_active_workspace_on_monitor: true,
        prev_active_workspace_on_monitor: true,
    };
    let replies = (0..13).map(|_| Reply::Done).collect();
    let (actions, outcome) = run_with(InvokeCommand::Focus(all), split(), state(), replies);
    let to = |target| Action::FocusWorkspace { target };
    assert_eq!(
        actions,
        vec![
            Action::FocusInDirection { origin: NODE, direction: Direction::Left },
            to(WorkspaceTarget::Direction(Direction::Up)),
            Action::FocusContainerById { id: ContainerId { value: 9 } },
            to(WorkspaceTarget::Name("1".to_string())),
            to(WorkspaceTarget::NameOnMonitor("web".to_string())),
            Action::FocusMonitor { index: 2 },
            to(WorkspaceTarget::NextActive),
            to(WorkspaceTarget::PreviousActive),
            to(WorkspaceTarget::Next),
            to(WorkspaceTarget::Previous),
            to(WorkspaceTarget::Recent),
            to(WorkspaceTarget::NextActiveInMonitor),
            to(WorkspaceTarget::PreviousActiveInMonitor),
        ]
    );
    assert_eq!(outcome, Some(Ok(())));
    assert_eq!(run(InvokeCommand::Focus(no_focus()), vec![]), (vec![], Some(Ok(()))));
}

#[test]
fn move_goes_through_all_parts_in_order() {
    let all = InvokeMoveCommand {
        direction: Some(Direction::Down),
        workspace_in_direction: Some(Direction::Right),
        workspace: Some("1".to_string()),
        workspace_on_monitor: Some("web".to_string()),
        next_active_workspace: true,
        prev_active_workspace: true,
        next_workspace: true,
        prev_workspace: true,
        recent_workspace: true,
        next_active_workspace_on_monitor: true,
        prev_active_workspace_on_monitor: true,
    };
    let replies = (0..11).map(|_| Reply::Done).collect();
    let (actions, outcome) = run(InvokeCommand::Move(all), replies);
    let to = |target| Action::MoveWindowToWorkspace { window: NODE, target };
    assert_eq!(
        actions,
        vec![
            Action::MoveWindowInDirection { window: NODE, direction: Direction::Down },
            to(WorkspaceTarget::Direction(Direction::Right)),
            to(WorkspaceTarget::Name("1".to_string())),
            to(WorkspaceTarget::NameOnMonitor("web".to_string())),
            to(WorkspaceTarget::NextActive),
            to(WorkspaceTarget::PreviousActive),
            to(WorkspaceTarget::Next),
            to(WorkspaceTarget::Previous),
            to(WorkspaceTarget::Recent),
            to(WorkspaceTarget::NextActiveInMonitor),
            to(WorkspaceTarget::PreviousActiveInMonitor),
        ]
    );
    assert_eq!(outcome, Some(Ok(())));
}

#[test]
fn actions_end_at_the_first_failure() {
    let args = InvokeFocusCommand {
        next_workspace: true,
        prev_workspace: true,
        recent_workspace: true,
        ..no_focus()
    };
    let (actions, outcome) =
        run(InvokeCommand::Focus(args), vec![Reply::Done, Reply::Failed("no workspace")]);
    assert_eq!(
        actions,
        vec![
            Action::FocusWorkspace { target: WorkspaceTarget::Next },
            Action::FocusWorkspace { target: WorkspaceTarget::Previous },
        ]
    );
    assert_eq!(outcome, Some(Err(WmError::Host("no workspace"))));
}

#[test]
fn reply_of_another_call_is_an_error() {
    let (actions, outcome) = run(InvokeCommand::WmExit, vec![Reply::Flag(true)]);
    assert_eq!(actions, vec![Action::EmitExit]);
    assert_eq!(outcome, Some(Err(WmError::UnexpectedReply)));
}

#[test]
fn workspace_moves_with_its_container() {
    assert_eq!(
        run(
            InvokeCommand::MoveWorkspace { direction: Direction::Right },
            vec![Reply::Done]
        ),
        (
            vec![Action::MoveWorkspaceInDirection {
                workspace: WORKSPACE,
                direction: Direction::Right
            }],
            Some(Ok(()))
        )
    );
    assert_eq!(
        run_with(
            InvokeCommand::MoveWorkspace { direction: Direction::Right },
            split(),
            state(),
            vec![]
        ),
        (vec![], Some(Err(WmError::NoWorkspace)))
    );
}

#[test]
fn workspace_config_is_updated_by_name_or_by_subject() {
    let by_name = InvokeCommand::UpdateWorkspaceConfig {
        workspace: Some("1".to_string()),
        new_config: new_config(),
    };
    let lookup = Action::WorkspaceByName { name: "1".to_string() };
    assert_eq!(
        run(by_name.clone(), vec![Reply::Workspace(Some(8)), Reply::Done]),
        (
            vec![
                lookup.clone(),
                Action::UpdateWorkspaceConfig { workspace: 8, new_config: new_config() }
            ],
            Some(Ok(()))
        )
    );
    assert_eq!(
        run(by_name, vec![Reply::Workspace(None)]),
        (vec![lookup], Some(Err(WmError::WorkspaceNotFound)))
    );

    let by_subject =
        InvokeCommand::UpdateWorkspaceConfig { workspace: None, new_config: new_config() };
    assert_eq!(
        run(by_subject.clone(), vec![Reply::Done]),
        (
            vec![Action::UpdateWorkspaceConfig {
                workspace: WORKSPACE,
                new_config: new_config()
            }],
            Some(Ok(()))
        )
    );
    assert_eq!(
        run_with(by_subject, split(), state(), vec![]),
        (vec![], Some(Err(WmError::NoWorkspace)))
    );
}

#[test]
fn position_is_centered_or_by_coordinates() {
    let position = |centered| {
        InvokeCommand::Position(InvokePositionCommand {
            centered,
            x_pos: Some(-3),
            y_pos: None,
        })
    };
    let at = |target| vec![Action::SetWindowPosition { window: NODE, target }];
    assert_eq!(run(position(true), vec![]).0, at(WindowPositionTarget::Centered));
    assert_eq!(
        run(position(false), vec![]).0,
        at(WindowPositionTarget::Coordinates(Some(-3), None))
    );
}

#[test]
fn sizes_are_handed_on() {
    let width = Some(length(10.0));
    assert_eq!(
        run(InvokeCommand::Resize(InvokeResizeCommand { width, height: None }), vec![]).0,
        vec![Action::ResizeWindow { window: NODE, width, height: None }]
    );
    assert_eq!(
        run(InvokeCommand::Size(InvokeSizeCommand { width: None, height: width }), vec![]).0,
        vec![Action::SetWindowSize { window: NODE, width: None, height: width }]
    );
}

fn set_floating(centered: Option<bool>) -> InvokeCommand {
    InvokeCommand::SetFloating {
        centered,
        shown_on_top: Some(true),
        x_pos: None,
        y_pos: Some(4),
        width: None,
        height: Some(length(300.0)),
    }
}

fn floating(centered: bool) -> WindowState {
    WindowState::Floating(FloatingStateConfig {
        centered,
        shown_on_top: true,
        transparency: transparency(),
    })
}

fn floated(has_custom_floating_placement: bool) -> Reply<&'static str> {
    Reply::Window(UpdatedWindow { node: 12, has_custom_floating_placement })
}

#[test]
fn floating_window_is_sized_then_placed() {
    let size =
        Action::SetWindowSize { window: 12, width: None, height: Some(length(300.0)) };
    let (actions, outcome) =
        run(set_floating(Some(false)), vec![floated(false), Reply::Done, Reply::Done]);
    assert_eq!(
        actions,
        vec![
            Action::UpdateWindowState { window: NODE, state: floating(false) },
            size.clone(),
            Action::SetWindowPosition {
                window: 12,
                target: WindowPositionTarget::Coordinates(None, Some(4)),
            },
        ]
    );
    assert_eq!(outcome, Some(Ok(())));

    // The configuration centers where the command does not say.
    let (actions, _) = run(set_floating(None), vec![floated(false), Reply::Done, Reply::Done]);
    assert_eq!(
        actions,
        vec![
            Action::UpdateWindowState { window: NODE, state: floating(true) },
            size,
            Action::SetWindowPosition { window: 12, target: WindowPositionTarget::Centered },
        ]
    );
}

#[test]
fn window_placed_by_hand_keeps_its_place() {
    let (actions, outcome) = run(set_floating(Some(true)), vec![floated(true)]);
    assert_eq!(
        actions,
        vec![Action::UpdateWindowState { window: NODE, state: floating(true) }]
    );
    assert_eq!(outcome, Some(Ok(())));
}

#[test]
fn failed_state_change_is_the_commands_error() {
    let (_, outcome) = run(set_floating(None), vec![Reply::Failed("gone")]);
    assert_eq!(outcome, Some(Err(WmError::Host("gone"))));
    let (_, outcome) = run(InvokeCommand::SetMinimized, vec![Reply::Done]);
    assert_eq!(outcome, Some(Err(WmError::UnexpectedReply)));
}

#[test]
fn states_are_set() {
    let cases = vec![
        (InvokeCommand::SetMinimized, WindowState::Minimized),
        (InvokeCommand::SetTiling, WindowState::Tiling),
        (
            InvokeCommand::SetFullscreen { maximized: Some(true), shown_on_top: None },
            WindowState::Fullscreen(FullscreenStateConfig {
                maximized: true,
                shown_on_top: true,
                transparency: transparency(),
            }),
        ),
    ];
    for (command, state) in cases {
        assert_eq!(
            run(command, vec![floated(false)]),
            (vec![Action::UpdateWindowState { window: NODE, state }], Some(Ok(())))
        );
    }
}

#[test]
fn states_are_toggled() {
    let cases = vec![
        (InvokeCommand::ToggleMinimized, WindowState::Minimized),
        (InvokeCommand::ToggleTiling, WindowState::Tiling),
        (
            InvokeCommand::ToggleFullscreen { maximized: None, shown_on_top: Some(false) },
            WindowState::Fullscreen(FullscreenStateConfig {
                maximized: false,
                shown_on_top: false,
                transparency: transparency(),
            }),
        ),
    ];
    for (command, target) in cases {
        assert_eq!(
            run(command, vec![Reply::State(floating(false)), floated(false)]),
            (
                vec![
                    Action::ToggledState { window: NODE, target },
                    Action::UpdateWindowState { window: NODE, state: floating(false) },
                ],
                Some(Ok(()))
            )
        );
    }
}

#[test]
fn toggled_floating_window_is_centered() {
    let toggle = |centered| InvokeCommand::ToggleFloating { centered, shown_on_top: Some(true) };
    let replies = |custom| vec![Reply::State(WindowState::Tiling), floated(custom), Reply::Done];
    let update = Action::UpdateWindowState { window: NODE, state: WindowState::Tiling };
    assert_eq!(
        run(toggle(None), replies(false)),
        (
            vec![
                Action::ToggledState { window: NODE, target: floating(true) },
                update.clone(),
                Action::SetWindowPosition { window: 12, target: WindowPositionTarget::Centered },
            ],
            Some(Ok(()))
        )
    );
    assert_eq!(
        run(toggle(Some(false)), replies(false)),
        (
            vec![Action::ToggledState { window: NODE, target: floating(false) }, update],
            Some(Ok(()))
        )
    );
    assert_eq!(run(toggle(None), replies(true)).0.len(), 2);
}

#[test]
fn title_bar_is_shown_and_hidden_on_windows_only() {
    let set = |visibility| InvokeCommand::SetTitleBarVisibility { visibility };
    let action = |visible| vec![Action::SetTitleBarVisibility { window: NODE, visible }];
    assert_eq!(run(set(TitleBarVisibility::Shown), vec![]).0, action(true));
    assert_eq!(
        run(set(TitleBarVisibility::Hidden), vec![Reply::Failed("denied")]),
        (action(false), Some(Ok(())))
    );
    assert_eq!(
        run_with(set(TitleBarVisibility::Shown), window(), mac_state(), vec![]),
        (vec![], Some(Ok(())))
    );
}

#[test]
fn transparency_is_set_then_adjusted() {
    let delta = OpacityDelta { amount: opacity(0.25), is_negative: true };
    let command = InvokeCommand::SetTransparency(InvokeSetTransparencyCommand {
        opacity: Some(opacity(0.75)),
        opacity_delta: Some(delta),
    });
    assert_eq!(
        run(command.clone(), vec![Reply::Failed("denied"), Reply::Done]),
        (
            vec![
                Action::SetTransparency {
                    window: NODE,
                    opacity: Opacity::Value(opacity(0.75))
                },
                Action::AdjustTransparency { window: NODE, delta },
            ],
            Some(Ok(()))
        )
    );
    assert_eq!(run_with(command, window(), mac_state(), vec![]), (vec![], Some(Ok(()))));
}

#[test]
fn transparency_pin_alternates() {
    let toggle = |opacity| InvokeCommand::ToggleTransparencyPin { opacity };
    assert_eq!(
        run(toggle(None), vec![Reply::Done, Reply::Done]).0,
        vec![
            Action::SetTransparency { window: NODE, opacity: Opacity::Alpha(255) },
            Action::SetTransparencyPin { window: NODE, pin: Some(Opacity::Alpha(255)) },
        ]
    );
    let half = Opacity::Value(opacity(0.5));
    assert_eq!(
        run(toggle(Some(opacity(0.5))), vec![Reply::Done, Reply::Done]).0,
        vec![
            Action::SetTransparency { window: NODE, opacity: half },
            Action::SetTransparencyPin { window: NODE, pin: Some(half) },
        ]
    );
    let mut pinned = window();
    pinned.facts.window =
        Some(WindowFacts { state: WindowState::Tiling, is_transparency_pinned: true });
    assert_eq!(
        run_with(toggle(None), pinned, state(), vec![Reply::Done, Reply::Done]).0,
        vec![
            Action::SetTransparencyPin { window: NODE, pin: None },
            Action::QueueAllEffectsUpdate,
        ]
    );
}

#[test]
fn shell_command_is_joined_by_spaces() {
    let shell = |words: Vec<&str>| InvokeCommand::ShellExec {
        hide_window: true,
        command: words.into_iter().map(|word| word.to_string()).collect(),
    };
    let line = |words: Vec<&str>| {
        let (calls, outcome) = play(
            WindowManager::run_command(&shell(words), split(), &state(), &config()),
            vec![Reply::Done],
        );
        assert_eq!(outcome, Some(Ok(())));
        assert_eq!(calls.len(), 1);
        calls[0].clone()
    };
    let exec = |command: &str| CommandCall::ShellExec {
        command: command.to_string(),
        hide_window: true,
    };
    assert_eq!(line(vec!["cmd", "/c", "dir"]), exec("cmd /c dir"));
    assert_eq!(line(vec!["notepad"]), exec("notepad"));
    assert_eq!(line(vec!["a", "", "b"]), exec("a  b"));
    assert_eq!(line(vec!["", "x"]), exec(" x"));
    assert_eq!(line(vec![]), exec(""));

    let (_, outcome) = play(
        WindowManager::run_command(&shell(vec!["x"]), split(), &state(), &config()),
        vec![Reply::Failed("not found")],
    );
    assert_eq!(outcome, Some(Err(WmError::Host("not found"))));
}

#[test]
fn commands_of_the_manager_are_handed_on() {
    let cases = vec![
        (
            InvokeCommand::ToggleTilingDirection,
            Action::ToggleTilingDirection { container: NODE },
        ),
        (
            InvokeCommand::SetTilingDirection { tiling_direction: TilingDirection::Vertical },
            Action::SetTilingDirection { container: NODE, direction: TilingDirection::Vertical },
        ),
        (
            InvokeCommand::WmCycleFocus {
                omit_floating: true,
                omit_fullscreen: false,
                omit_minimized: true,
                omit_tiling: false,
            },
            Action::CycleFocus {
                omit_floating: true,
                omit_fullscreen: false,
                omit_minimized: true,
                omit_tiling: false,
            },
        ),
        (
            InvokeCommand::WmDisableBindingMode { name: "resize".to_string() },
            Action::DisableBindingMode { name: "resize".to_string() },
        ),
        (
            InvokeCommand::WmEnableBindingMode { name: "resize".to_string() },
            Action::EnableBindingMode { name: "resize".to_string() },
        ),
        (InvokeCommand::WmExit, Action::EmitExit),
        (InvokeCommand::WmRedraw, Action::QueueRedraw { container: ROOT }),
        (InvokeCommand::WmReloadConfig, Action::ReloadConfig),
    ];
    for (command, action) in cases {
        assert_eq!(
            run_with(command, split(), state(), vec![Reply::Done]),
            (vec![action], Some(Ok(())))
        );
    }
    assert_eq!(run(InvokeCommand::Ignore, vec![]).0, vec![Action::IgnoreWindow { window: NODE }]);
}

fn rect(width: i32) -> Rect {
    Rect { x: 0, y: 0, width, height: 600 }
}

fn delta() -> RectDelta {
    RectDelta {
        left: length(1.0),
        top: length(1.0),
        right: length(1.0),
        bottom: length(1.0),
    }
}

fn close_calls(opacity: u8, corner_style: CornerStyle) -> Vec<Action> {
    vec![
        Action::WindowRect { window: NODE },
        Action::TotalBorderDelta { window: NODE },
        Action::ApplyDelta { rect: rect(800), delta: delta() },
        Action::StartCloseAnimation {
            window: NODE,
            window_id: ContainerId { value: 42 },
            rect: rect(802),
            opacity,
            corner_style,
        },
        Action::HasCloseAnimation { window_id: ContainerId { value: 42 } },
    ]
}

fn close_replies(is_animated: bool) -> Vec<Reply<&'static str>> {
    vec![
        Reply::Rect(rect(800)),
        Reply::Delta(delta()),
        Reply::Rect(rect(802)),
        Reply::Done,
        Reply::Flag(is_animated),
        Reply::Done,
        Reply::Done,
    ]
}

#[test]
fn closing_window_is_cloaked_behind_its_surrogate_then_detached() {
    let (actions, outcome) = run(InvokeCommand::Close, close_replies(true));
    let mut expected = close_calls(255, CornerStyle::Default);
    expected.push(Action::SetCloaked { window: NODE, cloaked: true });
    expected.push(Action::DetachWindowForClose { window: NODE });
    assert_eq!(actions, expected);
    assert_eq!(outcome, Some(Ok(())));
}

#[test]
fn focused_window_closes_with_its_own_effects() {
    let focused = WmState { focused_container: Some(window()), ..state() };
    let (actions, _) = run_with(InvokeCommand::Close, window(), focused, close_replies(true));
    assert_eq!(actions[..5].to_vec(), close_calls(200, CornerStyle::Rounded));

    // Where nothing has focus, the focus counts as on the nil ID.
    let mut nil = window();
    nil.id = ContainerId { value: 0 };
    let (actions, _) = run_with(InvokeCommand::Close, nil, state(), close_replies(true));
    assert!(matches!(actions[3], Action::StartCloseAnimation { opacity: 200, .. }));
}

#[test]
fn window_closes_at_once_without_a_surrogate() {
    let close = Action::CloseWindow { window: NODE };

    let (actions, outcome) = run(InvokeCommand::Close, close_replies(false));
    let mut expected = close_calls(255, CornerStyle::Default);
    expected.push(close.clone());
    assert_eq!((actions, outcome), (expected, Some(Ok(()))));

    let no_rect = vec![Reply::Failed("no rect"), Reply::Failed("cannot close")];
    assert_eq!(
        run(InvokeCommand::Close, no_rect),
        (vec![Action::WindowRect { window: NODE }, close.clone()], Some(Ok(())))
    );

    let no_delta = vec![Reply::Rect(rect(800)), Reply::Failed("no delta"), Reply::Done];
    assert_eq!(
        run(InvokeCommand::Close, no_delta),
        (
            vec![
                Action::WindowRect { window: NODE },
                Action::TotalBorderDelta { window: NODE },
                close.clone()
            ],
            Some(Ok(()))
        )
    );

    assert_eq!(
        run_with(InvokeCommand::Close, window(), mac_state(), vec![Reply::Done]),
        (vec![close.clone()], Some(Ok(())))
    );

    let quiet = UserConfig { window_close_animation: false, ..config() };
    let (calls, outcome) = play(
        WindowManager::run_command(&InvokeCommand::Close, window(), &state(), &quiet),
        vec![Reply::Done],
    );
    assert_eq!((calls, outcome), (vec![CommandCall::Act(close)], Some(Ok(()))));
}

#[test]
fn failed_cloak_is_passed_over_and_failed_detachment_is_not() {
    let mut replies = close_replies(true);
    replies[5] = Reply::Failed("no cloak");
    assert_eq!(run(InvokeCommand::Close, replies.clone()).1, Some(Ok(())));
    replies[6] = Reply::Failed("no parent");
    assert_eq!(
        run(InvokeCommand::Close, replies).1,
        Some(Err(WmError::Host("no parent")))
    );
}

#[test]
fn errors_have_messages() {
    let message = |error: WmError<&str>| error.message();
    let id = ContainerId { value: 0xa1a2a3a4b1b2c1c2d1d2d3d4d5d6d7d8 };
    assert_eq!(
        message(WmError::ContainerNotFound { id }),
        Some(
            "No container found with the given ID 'a1a2a3a4-b1b2-c1c2-d1d2-d3d4d5d6d7d8'."
                .to_string()
        )
    );
    assert_eq!(
        message(WmError::NoSubjectContainer),
        Some("No subject container for command.".to_string())
    );
    assert_eq!(
        message(WmError::SubjectDetached),
        Some("Cannot run command because subject container is detached.".to_string())
    );
    assert_eq!(message(WmError::NoWorkspace), Some("No workspace.".to_string()));
    assert_eq!(
        message(WmError::WorkspaceNotFound),
        Some("Workspace doesn't exist.".to_string())
    );
    assert_eq!(
        message(WmError::UnexpectedReply),
        Some("Unexpected reply to a call.".to_string())
    );
    assert_eq!(message(WmError::Host("anything")), None);
}
