use wm::call::{
    Action, Call, CleanupCall, CommandCall, Handler, ManagerCall, Reply, Step, UpdatedWindow,
};
use wm::command::InvokeCommand;
use wm::config::{
    CornerStyleEffectConfig, TransparencyEffectConfig, UserConfig, WindowEffectConfig,
};
use wm::error::WmError;
use wm::event::{
    ContainerDto, DisplayState, Keybinding, KeybindingConfig, PlatformEvent, WindowDto,
    WindowEvent, WmEvent,
};
use wm::state::{Container, ContainerFacts, Platform, WindowFacts, WmState};
use wm::values::{
    ContainerId, CornerStyle, FloatingStateConfig, FullscreenStateConfig, LengthValue,
    OpacityValue, Rect, RectDelta, StateTransparency, TilingDirection, WindowState,
};
use wm::wm::WindowManager;

const NODE: u64 = 11;
const ID: ContainerId = ContainerId { value: 42 };

type Host = &'static str;

fn effects() -> WindowEffectConfig {
    WindowEffectConfig {
        transparency: TransparencyEffectConfig { enabled: false, alpha: 255 },
        corner_style: CornerStyleEffectConfig { enabled: false, style: CornerStyle::Default },
    }
}

fn config() -> UserConfig {
    let transparency = StateTransparency { enabled: false, opacity: OpacityValue { bits: 0 } };
    UserConfig {
        auto_set_tiling_direction: true,
        window_close_animation: false,
        focused_window: effects(),
        other_windows: effects(),
        floating_defaults: FloatingStateConfig {
            centered: false,
            shown_on_top: false,
            transparency,
        },
        fullscreen_defaults: FullscreenStateConfig {
            maximized: false,
            shown_on_top: false,
            transparency,
        },
    }
}

fn facts(is_detached: bool) -> ContainerFacts {
    ContainerFacts {
        is_detached,
        window: Some(WindowFacts { state: WindowState::Tiling, is_transparency_pinned: false }),
        workspace: None,
    }
}

fn window() -> Container {
    Container { node: NODE, id: ID, facts: facts(false) }
}

/// Not paused, nothing queued, with the window in focus.
fn calm() -> WmState {
    WmState {
        platform: Platform::Windows,
        is_paused: false,
        has_pending_changes: false,
        focused_container: Some(window()),
        root_node: 1,
    }
}

fn pending() -> WmState {
    WmState { has_pending_changes: true, ..calm() }
}

fn paused() -> WmState {
    WmState { is_paused: true, ..pending() }
}

fn manager(state: WmState) -> WindowManager {
    WindowManager { state }
}

fn manage(call: ManagerCall) -> Call<String> {
    Call::Manage(call)
}

fn act(action: Action) -> Call<String> {
    Call::Command(CommandCall::Act(action))
}

const INSPECT: ManagerCall = ManagerCall::Inspect { node: NODE };

/// The calls that are asked for when these turns are taken, and the end.
fn play<C, R, T>(
    first: Step<C, R, T>,
    turns: Vec<(Reply<Host>, WmState)>,
    resume: impl Fn(R, Reply<Host>, &WmState) -> Step<C, R, T>,
) -> (Vec<C>, Option<T>) {
    let mut calls = Vec::new();
    let mut turns = turns.into_iter();
    let mut step = first;
    loop {
        match step {
            Step::Call(call, run) => {
                calls.push(call);
                match turns.next() {
                    Some((reply, state)) => step = resume(run, reply, &state),
                    None => return (calls, None),
                }
            }
            Step::Finished(result) => return (calls, Some(result)),
        }
    }
}

fn run_row(
    commands: Vec<InvokeCommand>,
    state: WmState,
    turns: Vec<(Reply<Host>, WmState)>,
) -> (Vec<Call<String>>, Option<Result<ContainerId, WmError<Host>>>) {
    play(
        WindowManager::run_commands(commands, window(), &state, &config()),
        turns,
        |run, reply, state| run.resume(reply, state, &config()),
    )
}

fn process(
    commands: Vec<InvokeCommand>,
    id: Option<ContainerId>,
    state: WmState,
    turns: Vec<(Reply<Host>, WmState)>,
) -> (Vec<Call<String>>, Option<Result<ContainerId, WmError<Host>>>) {
    play(
        manager(state).process_commands(commands, id, &config()),
        turns,
        |run, reply, state| run.resume(reply, state, &config()),
    )
}

fn event(
    event: PlatformEvent,
    state: WmState,
    turns: Vec<(Reply<Host>, WmState)>,
) -> (Vec<Call<String>>, Option<Result<(), WmError<Host>>>) {
    play(manager(state).process_event(event), turns, |run, reply, state| {
        run.resume(reply, state, &config())
    })
}

#[test]
fn start_fills_the_state_then_starts_the_timer() {
    let start = |turns| {
        play(WindowManager::new(), turns, |run, reply, state| {
            run.resume(reply, state, &config())
        })
    };
    assert_eq!(
        start(vec![(Reply::Done, calm()), (Reply::Done, pending())]),
        (
            vec![manage(ManagerCall::Populate), manage(ManagerCall::EnsureTimerRunning)],
            Some(Ok(manager(pending())))
        )
    );
    assert_eq!(
        start(vec![(Reply::Failed("no monitor"), calm())]),
        (vec![manage(ManagerCall::Populate)], Some(Err(WmError::Host("no monitor"))))
    );
}

#[test]
fn commands_run_in_their_order() {
    let (calls, outcome) = run_row(
        vec![InvokeCommand::WmReloadConfig, InvokeCommand::Ignore],
        calm(),
        vec![
            (Reply::Done, calm()),
            (Reply::Facts(facts(false)), calm()),
            (Reply::Done, calm()),
            (Reply::Facts(facts(false)), calm()),
        ],
    );
    assert_eq!(
        calls,
        vec![
            act(Action::ReloadConfig),
            manage(INSPECT),
            act(Action::IgnoreWindow { window: NODE }),
            manage(INSPECT),
        ]
    );
    assert_eq!(outcome, Some(Ok(ID)));
    assert_eq!(run_row(vec![], calm(), vec![]), (vec![], Some(Ok(ID))));
}

#[test]
fn detached_subject_is_replaced_by_the_container_of_its_id() {
    let replacement = Container { node: 12, ..window() };
    let lookup = manage(ManagerCall::ContainerById { id: ID });
    let commands = vec![InvokeCommand::WmReloadConfig, InvokeCommand::Ignore];
    let (calls, outcome) = run_row(
        commands.clone(),
        calm(),
        vec![
            (Reply::Done, calm()),
            (Reply::Facts(facts(true)), calm()),
            (Reply::Container(Some(replacement)), calm()),
            (Reply::Done, calm()),
            (Reply::Facts(facts(false)), calm()),
        ],
    );
    assert_eq!(
        calls,
        vec![
            act(Action::ReloadConfig),
            manage(INSPECT),
            lookup.clone(),
            act(Action::IgnoreWindow { window: 12 }),
            manage(ManagerCall::Inspect { node: 12 }),
        ]
    );
    assert_eq!(outcome, Some(Ok(ID)));

    // Where nothing has the ID any more, the remaining commands are left.
    let (calls, outcome) = run_row(
        commands,
        calm(),
        vec![
            (Reply::Done, calm()),
            (Reply::Facts(facts(true)), calm()),
            (Reply::Container(None), calm()),
        ],
    );
    assert_eq!(calls, vec![act(Action::ReloadConfig), manage(INSPECT), lookup]);
    assert_eq!(outcome, Some(Ok(ID)));
}

#[test]
fn failed_command_ends_the_row() {
    assert_eq!(
        run_row(
            vec![InvokeCommand::WmReloadConfig, InvokeCommand::Ignore],
            calm(),
            vec![(Reply::Failed("bad config"), calm())]
        ),
        (vec![act(Action::ReloadConfig)], Some(Err(WmError::Host("bad config"))))
    );
}

#[test]
fn failed_command_keeps_the_later_ones_from_running() {
    let turns = || {
        vec![
            (Reply::Done, calm()),
            (Reply::Facts(facts(false)), calm()),
            (Reply::Failed("closed"), calm()),
        ]
    };
    let commands = vec![InvokeCommand::WmReloadConfig, InvokeCommand::WmExit];
    let mut more = commands.clone();
    more.push(InvokeCommand::Ignore);
    more.push(InvokeCommand::WmRedraw);
    let expected = (
        vec![act(Action::ReloadConfig), manage(INSPECT), act(Action::EmitExit)],
        Some(Err(WmError::Host("closed"))),
    );
    assert_eq!(run_row(commands, calm(), turns()), expected);
    assert_eq!(run_row(more, calm(), turns()), expected);
}

#[test]
fn paused_row_asks_for_no_command() {
    let (calls, outcome) = run_row(
        vec![InvokeCommand::WmExit, InvokeCommand::Close],
        paused(),
        vec![(Reply::Facts(facts(false)), paused()), (Reply::Facts(facts(false)), paused())],
    );
    assert_eq!(calls, vec![manage(INSPECT), manage(INSPECT)]);
    assert_eq!(outcome, Some(Ok(ID)));
}

#[test]
fn unpausing_lets_the_next_command_run() {
    let (calls, _) = run_row(
        vec![InvokeCommand::WmTogglePause, InvokeCommand::WmExit],
        paused(),
        vec![(Reply::Done, calm()), (Reply::Facts(facts(false)), calm())],
    );
    assert_eq!(
        calls,
        vec![act(Action::TogglePause), manage(INSPECT), act(Action::EmitExit)]
    );
}

#[test]
fn processing_syncs_queued_changes_and_starts_the_timer() {
    let (calls, outcome) = process(
        vec![InvokeCommand::WmRedraw],
        None,
        calm(),
        vec![
            (Reply::Done, pending()),
            (Reply::Facts(facts(false)), pending()),
            (Reply::Done, calm()),
            (Reply::Done, calm()),
        ],
    );
    assert_eq!(
        calls,
        vec![
            act(Action::QueueRedraw { container: 1 }),
            manage(INSPECT),
            manage(ManagerCall::PlatformSync),
            manage(ManagerCall::EnsureTimerRunning),
        ]
    );
    assert_eq!(outcome, Some(Ok(ID)));

    // Nothing is queued: the platform is left alone.
    assert_eq!(
        process(vec![], None, calm(), vec![(Reply::Done, calm())]),
        (vec![manage(ManagerCall::EnsureTimerRunning)], Some(Ok(ID)))
    );
    assert_eq!(
        process(vec![], None, paused(), vec![(Reply::Failed("sync"), calm())]),
        (vec![manage(ManagerCall::PlatformSync)], Some(Err(WmError::Host("sync"))))
    );
}

#[test]
fn subject_is_found_by_id_or_by_focus() {
    let id = ContainerId { value: 77 };
    let found = Container { node: 15, id, ..window() };
    let lookup = manage(ManagerCall::ContainerById { id });
    let (calls, outcome) = process(
        vec![InvokeCommand::Ignore],
        Some(id),
        calm(),
        vec![
            (Reply::Container(Some(found)), calm()),
            (Reply::Done, calm()),
            (Reply::Facts(facts(false)), calm()),
            (Reply::Done, calm()),
        ],
    );
    assert_eq!(
        calls,
        vec![
            lookup.clone(),
            act(Action::IgnoreWindow { window: 15 }),
            manage(ManagerCall::Inspect { node: 15 }),
            manage(ManagerCall::EnsureTimerRunning),
        ]
    );
    assert_eq!(outcome, Some(Ok(id)));

    assert_eq!(
        process(vec![], Some(id), calm(), vec![(Reply::Container(None), calm())]),
        (vec![lookup], Some(Err(WmError::ContainerNotFound { id })))
    );
    let unfocused = WmState { focused_container: None, ..calm() };
    assert_eq!(
        process(vec![InvokeCommand::WmExit], None, unfocused, vec![]),
        (vec![], Some(Err(WmError::NoSubjectContainer)))
    );
}

#[test]
fn events_go_to_their_handlers() {
    let window: u64 = 90;
    let cases = vec![
        (PlatformEvent::DisplaySettingsChanged, Handler::DisplaySettingsChanged),
        (PlatformEvent::Mouse { ticket: 3 }, Handler::MouseMove { ticket: 3 }),
        (
            PlatformEvent::Window(WindowEvent::Focused { window }),
            Handler::WindowFocused { window },
        ),
        (PlatformEvent::Window(WindowEvent::Shown { window }), Handler::WindowShown { window }),
        (PlatformEvent::Window(WindowEvent::Hidden { window }), Handler::WindowHidden { window }),
        (
            PlatformEvent::Window(WindowEvent::Minimized { window }),
            Handler::WindowMinimized { window },
        ),
        (
            PlatformEvent::Window(WindowEvent::MinimizeEnded { window }),
            Handler::WindowMinimizeEnded { window },
        ),
        (
            PlatformEvent::Window(WindowEvent::TitleChanged { window }),
            Handler::WindowTitleChanged { window },
        ),
        (
            PlatformEvent::Window(WindowEvent::Destroyed { window_id: window }),
            Handler::WindowDestroyed { window_id: window },
        ),
        (
            PlatformEvent::Window(WindowEvent::MovedOrResized {
                window,
                is_interactive_start: false,
                is_interactive_end: true,
            }),
            Handler::WindowMovedOrResized {
                window,
                is_interactive_start: false,
                is_interactive_end: true,
            },
        ),
    ];
    for (platform_event, handler) in cases {
        let (calls, outcome) = event(
            platform_event,
            calm(),
            vec![(Reply::Done, pending()), (Reply::Done, calm()), (Reply::Done, calm())],
        );
        assert_eq!(
            calls,
            vec![
                manage(ManagerCall::Handle(handler)),
                manage(ManagerCall::PlatformSync),
                manage(ManagerCall::EnsureTimerRunning),
            ]
        );
        assert_eq!(outcome, Some(Ok(())));
    }
}

#[test]
fn paused_manager_does_not_sync_after_an_event() {
    let handler = manage(ManagerCall::Handle(Handler::DisplaySettingsChanged));
    let timer = manage(ManagerCall::EnsureTimerRunning);
    for state in [paused(), calm()] {
        assert_eq!(
            event(
                PlatformEvent::DisplaySettingsChanged,
                calm(),
                vec![(Reply::Done, state), (Reply::Done, state)]
            ),
            (vec![handler.clone(), timer.clone()], Some(Ok(())))
        );
    }
    assert_eq!(
        event(
            PlatformEvent::DisplaySettingsChanged,
            calm(),
            vec![(Reply::Failed("handler"), pending())]
        ),
        (vec![handler], Some(Err(WmError::Host("handler"))))
    );
}

fn keys(keys: Vec<u16>) -> Keybinding {
    Keybinding { keys }
}

fn bound(bindings: Vec<Vec<u16>>, command: InvokeCommand) -> KeybindingConfig {
    KeybindingConfig {
        bindings: bindings.into_iter().map(keys).collect(),
        commands: vec![command],
    }
}

#[test]
fn first_bound_keybinding_runs_its_commands_and_syncs_once() {
    let configs = vec![
        bound(vec![vec![1], vec![1, 3]], InvokeCommand::WmReloadConfig),
        bound(vec![vec![2], vec![1, 2]], InvokeCommand::WmExit),
        bound(vec![vec![1, 2]], InvokeCommand::Ignore),
    ];
    let (calls, outcome) = event(
        PlatformEvent::Keybinding(keys(vec![1, 2])),
        calm(),
        vec![
            (Reply::Keybindings(configs), calm()),
            (Reply::Done, pending()),
            (Reply::Facts(facts(false)), pending()),
            (Reply::Done, pending()),
            (Reply::Done, pending()),
        ],
    );
    assert_eq!(
        calls,
        vec![
            manage(ManagerCall::ActiveKeybindings { is_paused: false }),
            act(Action::EmitExit),
            manage(INSPECT),
            manage(ManagerCall::PlatformSync),
            manage(ManagerCall::EnsureTimerRunning),
        ]
    );
    assert_eq!(outcome, Some(Ok(())));
}

#[test]
fn unbound_keys_do_nothing() {
    let configs = vec![bound(vec![vec![2, 1], vec![1, 2, 3], vec![]], InvokeCommand::WmExit)];
    assert_eq!(
        event(
            PlatformEvent::Keybinding(keys(vec![1, 2])),
            paused(),
            vec![(Reply::Keybindings(configs), pending())]
        ),
        (vec![manage(ManagerCall::ActiveKeybindings { is_paused: true })], Some(Ok(())))
    );
}

#[test]
fn failed_keybinding_command_is_the_events_error() {
    let configs = vec![bound(vec![vec![1]], InvokeCommand::WmExit)];
    let (_, outcome) = event(
        PlatformEvent::Keybinding(keys(vec![1])),
        calm(),
        vec![(Reply::Keybindings(configs), calm()), (Reply::Failed("closed"), calm())],
    );
    assert_eq!(outcome, Some(Err(WmError::Host("closed"))));
}

#[test]
fn drag_goes_as_a_native_move() {
    let courses = vec![
        vec![],
        vec![(Reply::Failed("handler"), pending())],
        vec![(Reply::Flag(true), pending())],
        vec![(Reply::Done, paused())],
        vec![(Reply::Done, calm())],
        vec![(Reply::Done, pending())],
        vec![(Reply::Done, pending()), (Reply::Failed("sync"), calm())],
        vec![(Reply::Done, pending()), (Reply::Done, calm())],
    ];
    for is_start in [true, false] {
        for turns in courses.clone() {
            let (calls, outcome) = play(
                manager(calm()).process_window_drag(90, is_start),
                turns.clone(),
                |run, reply, state| run.resume(reply, state, &config()),
            );
            let (mut native_calls, native_outcome) = event(
                PlatformEvent::Window(WindowEvent::MovedOrResized {
                    window: 90,
                    is_interactive_start: is_start,
                    is_interactive_end: !is_start,
                }),
                calm(),
                turns,
            );
            assert_eq!(
                calls[0],
                manage(ManagerCall::Handle(Handler::WindowMovedOrResized {
                    window: 90,
                    is_interactive_start: is_start,
                    is_interactive_end: !is_start,
                }))
            );
            if outcome == Some(Ok(())) {
                // Only the native move starts the animation timer.
                assert_eq!(native_calls.pop(), Some(manage(ManagerCall::EnsureTimerRunning)));
                assert_eq!(native_outcome, None);
            } else {
                assert_eq!(native_outcome, outcome);
            }
            assert_eq!(native_calls, calls);
        }
    }
}

#[test]
fn drag_syncs_unless_paused() {
    let drag = |turns| {
        play(manager(calm()).process_window_drag(90, true), turns, |run, reply, state| {
            run.resume(reply, state, &config())
        })
    };
    let (calls, outcome) = drag(vec![(Reply::Done, pending()), (Reply::Done, calm())]);
    assert_eq!(calls.len(), 2);
    assert_eq!(calls[1], manage(ManagerCall::PlatformSync));
    assert_eq!(outcome, Some(Ok(())));
    let (calls, outcome) = drag(vec![(Reply::Done, paused())]);
    assert_eq!(calls.len(), 1);
    assert_eq!(outcome, Some(Ok(())));
}

#[test]
fn animations_are_updated() {
    let update = |turns| {
        play(manager(calm()).update_animations(), turns, |run, reply, state| {
            run.resume(reply, state, &config())
        })
    };
    let call = manage(ManagerCall::UpdateAnimations);
    assert_eq!(
        update(vec![(Reply::Done, pending())]),
        (vec![call.clone()], Some(Ok(())))
    );
    assert_eq!(
        update(vec![(Reply::Failed("frame"), calm())]),
        (vec![call], Some(Err(WmError::Host("frame"))))
    );
}

fn focus_changed() -> WmEvent {
    WmEvent::FocusChanged {
        focused_container: ContainerDto::Window(WindowDto {
            id: ID,
            parent_id: None,
            has_focus: true,
            tiling_size_bits: None,
            width: 800,
            height: 600,
            x: 0,
            y: 0,
            state: WindowState::Tiling,
            prev_state: None,
            display_state: DisplayState::Shown,
            border_delta: RectDelta {
                left: LengthValue::zero_px(),
                top: LengthValue::zero_px(),
                right: LengthValue::zero_px(),
                bottom: LengthValue::zero_px(),
            },
            floating_placement: Rect { x: 0, y: 0, width: 800, height: 600 },
            handle: 0,
            title: String::new(),
            process_name: String::new(),
            is_dragged: false,
            transparency_pin: None,
        }),
    }
}

fn wm_event(
    event: WmEvent,
    config: UserConfig,
    replies: Vec<Reply<Host>>,
) -> (Vec<Call<String>>, Option<Result<(), WmError<Host>>>) {
    let turns = replies.into_iter().map(|reply| (reply, calm())).collect();
    play(
        manager(calm()).process_wm_event(&event, &config),
        turns,
        |run, reply, state| run.resume(reply, state, &config),
    )
}

fn shape(width: i32, height: i32) -> Reply<Host> {
    Reply::Rect(Rect { x: 0, y: 0, width, height })
}

#[test]
fn tiling_direction_follows_the_focused_window() {
    let lookup = manage(ManagerCall::ContainerById { id: ID });
    let measure = act(Action::WindowRect { window: NODE });
    let turn = |direction| act(Action::SetTilingDirection { container: NODE, direction });
    let found = Reply::Container(Some(window()));
    assert_eq!(
        wm_event(
            focus_changed(),
            config(),
            vec![found.clone(), shape(600, 900), Reply::Done]
        ),
        (
            vec![lookup.clone(), measure.clone(), turn(TilingDirection::Vertical)],
            Some(Ok(()))
        )
    );
    assert_eq!(
        wm_event(
            focus_changed(),
            config(),
            vec![found.clone(), shape(900, 600), Reply::Failed("no parent")]
        ),
        (
            vec![lookup.clone(), measure.clone(), turn(TilingDirection::Horizontal)],
            Some(Err(WmError::Host("no parent")))
        )
    );
    assert_eq!(
        wm_event(focus_changed(), config(), vec![found.clone(), shape(5, 5)]),
        (vec![lookup.clone(), measure.clone()], Some(Ok(())))
    );
    assert_eq!(
        wm_event(focus_changed(), config(), vec![found, Reply::Failed("no rect")]),
        (vec![lookup.clone(), measure], Some(Err(WmError::Host("no rect"))))
    );
    assert_eq!(
        wm_event(focus_changed(), config(), vec![Reply::Container(None)]),
        (vec![lookup], Some(Ok(())))
    );
}

#[test]
fn tiling_direction_is_left_alone_otherwise() {
    let off = UserConfig { auto_set_tiling_direction: false, ..config() };
    assert_eq!(wm_event(focus_changed(), off, vec![]), (vec![], Some(Ok(()))));
    assert_eq!(wm_event(WmEvent::Other, config(), vec![]), (vec![], Some(Ok(()))));

    let mut minimized = window();
    minimized.facts.window =
        Some(WindowFacts { state: WindowState::Minimized, is_transparency_pinned: false });
    let mut workspace = window();
    workspace.facts.window = None;
    for container in [minimized, workspace] {
        let (calls, outcome) =
            wm_event(focus_changed(), config(), vec![Reply::Container(Some(container))]);
        assert_eq!(calls.len(), 1);
        assert_eq!(outcome, Some(Ok(())));
    }
}

fn make(call: Call<String>) -> CleanupCall<String, Host> {
    CleanupCall::Make(call)
}

fn clean_up(
    commands: Vec<InvokeCommand>,
    turns: Vec<(Reply<Host>, WmState)>,
) -> (Vec<CleanupCall<String, Host>>, Option<()>) {
    play(manager(paused()).cleanup(commands), turns, |run, reply, state| {
        run.resume(reply, state, &config())
    })
}

#[test]
fn exit_runs_shutdown_commands_then_publishes_all_events() {
    let (calls, outcome) = clean_up(
        vec![InvokeCommand::WmReloadConfig],
        vec![
            (Reply::Done, paused()),
            (Reply::Done, calm()),
            (Reply::Done, calm()),
            (Reply::Facts(facts(false)), calm()),
            (Reply::Done, calm()),
            (Reply::Event(Some(6)), calm()),
            (Reply::Failed("ipc"), calm()),
            (Reply::Event(Some(7)), calm()),
            (Reply::Done, calm()),
            (Reply::Event(None), calm()),
        ],
    );
    assert_eq!(
        calls,
        vec![
            make(manage(ManagerCall::EmitApplicationExiting)),
            make(manage(ManagerCall::Unpause)),
            make(act(Action::ReloadConfig)),
            make(manage(INSPECT)),
            make(manage(ManagerCall::EnsureTimerRunning)),
            make(manage(ManagerCall::NextEvent)),
            make(manage(ManagerCall::PublishEvent { ticket: 6 })),
            make(manage(ManagerCall::NextEvent)),
            make(manage(ManagerCall::PublishEvent { ticket: 7 })),
            make(manage(ManagerCall::NextEvent)),
        ]
    );
    assert_eq!(outcome, Some(()));
}

#[test]
fn exit_warns_of_failed_shutdown_commands_and_goes_on() {
    let (calls, outcome) = clean_up(
        vec![InvokeCommand::WmReloadConfig],
        vec![
            (Reply::Done, paused()),
            (Reply::Done, calm()),
            (Reply::Failed("bad config"), calm()),
            (Reply::Done, calm()),
            (Reply::Event(Some(6)), calm()),
            (Reply::Done, calm()),
            (Reply::Event(None), calm()),
        ],
    );
    assert_eq!(
        calls,
        vec![
            make(manage(ManagerCall::EmitApplicationExiting)),
            make(manage(ManagerCall::Unpause)),
            make(act(Action::ReloadConfig)),
            CleanupCall::WarnOfShutdown(WmError::Host("bad config")),
            make(manage(ManagerCall::NextEvent)),
            make(manage(ManagerCall::PublishEvent { ticket: 6 })),
            make(manage(ManagerCall::NextEvent)),
        ]
    );
    assert_eq!(outcome, Some(()));
}

#[test]
fn exit_warns_where_no_container_has_focus() {
    let unfocused = WmState { focused_container: None, ..calm() };
    let (calls, outcome) = clean_up(
        vec![],
        vec![
            (Reply::Done, unfocused),
            (Reply::Done, unfocused),
            (Reply::Failed("log"), unfocused),
            (Reply::Event(None), unfocused),
        ],
    );
    assert_eq!(
        calls,
        vec![
            make(manage(ManagerCall::EmitApplicationExiting)),
            make(manage(ManagerCall::Unpause)),
            CleanupCall::WarnOfShutdown(WmError::NoSubjectContainer),
            make(manage(ManagerCall::NextEvent)),
        ]
    );
    assert_eq!(outcome, Some(()));
}

#[test]
fn exit_does_not_warn_of_tolerated_failures() {
    let (calls, _) = clean_up(
        vec![InvokeCommand::Close],
        vec![
            (Reply::Done, paused()),
            (Reply::Done, calm()),
            (Reply::Failed("cannot close"), calm()),
            (Reply::Facts(facts(false)), calm()),
            (Reply::Done, calm()),
            (Reply::Event(None), calm()),
        ],
    );
    assert_eq!(
        calls[2..].to_vec(),
        vec![
            make(act(Action::CloseWindow { window: NODE })),
            make(manage(INSPECT)),
            make(manage(ManagerCall::EnsureTimerRunning)),
            make(manage(ManagerCall::NextEvent)),
        ]
    );
}

/// A host that keeps nothing but the pause, and succeeds with every call.
fn reply_to(call: &Call<String>, state: &mut WmState) -> Reply<Host> {
    match call {
        Call::Command(CommandCall::Act(Action::TogglePause)) => {
            state.is_paused = !state.is_paused;
            Reply::Done
        }
        Call::Manage(ManagerCall::Unpause) => {
            state.is_paused = false;
            Reply::Done
        }
        Call::Manage(ManagerCall::Inspect { .. }) => Reply::Facts(facts(false)),
        Call::Manage(ManagerCall::ContainerById { .. }) => Reply::Container(Some(window())),
        Call::Manage(ManagerCall::NextEvent) => Reply::Event(None),
        _ => Reply::Done,
    }
}

/// The pause after the commands have run, and the calls that they asked for.
fn pause_after(commands: Vec<InvokeCommand>, is_paused: bool) -> (bool, Vec<Call<String>>) {
    let mut state = WmState { is_paused, ..calm() };
    let mut calls = Vec::new();
    let mut step = WindowManager::run_commands(commands, window(), &state, &config());
    loop {
        match step {
            Step::Call(call, run) => {
                let reply = reply_to(&call, &mut state);
                calls.push(call);
                step = run.resume(reply, &state, &config());
            }
            Step::Finished(result) => {
                assert_eq!(result, Ok(ID));
                return (state.is_paused, calls);
            }
        }
    }
}

#[test]
fn toggles_alternate_the_pause() {
    let toggles = |count| vec![InvokeCommand::WmTogglePause; count];
    for is_paused in [false, true] {
        assert_eq!(pause_after(toggles(1), is_paused).0, !is_paused);
        assert_eq!(pause_after(toggles(2), is_paused).0, is_paused);
        assert_eq!(pause_after(toggles(3), is_paused).0, !is_paused);
        let (_, calls) = pause_after(toggles(2), is_paused);
        assert_eq!(
            calls,
            vec![
                act(Action::TogglePause),
                manage(INSPECT),
                act(Action::TogglePause),
                manage(INSPECT)
            ]
        );
    }
}

/// The calls of an exit from a pause, or from none, and the pause at its end.
fn exit_from(commands: Vec<InvokeCommand>, is_paused: bool) -> (Vec<Call<String>>, bool) {
    let mut state = WmState { is_paused, ..calm() };
    let mut calls = Vec::new();
    let mut step = manager(state).cleanup::<Host>(commands);
    loop {
        match step {
            Step::Call(CleanupCall::Make(call), run) => {
                let reply = reply_to(&call, &mut state);
                calls.push(call);
                step = run.resume(reply, &state, &config());
            }
            Step::Call(CleanupCall::WarnOfShutdown(_), _) => panic!("nothing was to fail"),
            Step::Finished(()) => return (calls, state.is_paused),
        }
    }
}

#[test]
fn exit_is_the_same_from_a_pause() {
    let commands = vec![InvokeCommand::WmReloadConfig, InvokeCommand::Ignore];
    let (calls, is_paused) = exit_from(commands.clone(), true);
    assert_eq!(
        calls,
        vec![
            manage(ManagerCall::EmitApplicationExiting),
            manage(ManagerCall::Unpause),
            act(Action::ReloadConfig),
            manage(INSPECT),
            act(Action::IgnoreWindow { window: NODE }),
            manage(INSPECT),
            manage(ManagerCall::EnsureTimerRunning),
            manage(ManagerCall::NextEvent),
        ]
    );
    assert!(!is_paused);
    assert_eq!(exit_from(commands, false), (calls, false));
    assert!(!exit_from(vec![], true).1);
    assert!(!exit_from(vec![], false).1);
}

#[test]
fn row_of_two_rows_is_one_after_the_other() {
    let replacement = Container { node: 12, ..window() };
    let first = vec![InvokeCommand::SetTiling];
    let second = vec![InvokeCommand::Ignore, InvokeCommand::WmRedraw];
    let updated = Reply::Window(UpdatedWindow {
        node: 12,
        has_custom_floating_placement: false,
    });
    let first_turns = vec![
        (updated, pending()),
        (Reply::Facts(facts(true)), pending()),
        (Reply::Container(Some(replacement)), pending()),
    ];
    let second_turns = vec![
        (Reply::Done, pending()),
        (Reply::Facts(facts(false)), pending()),
        (Reply::Failed("gone"), pending()),
    ];
    let (mut calls, outcome) = run_row(first.clone(), calm(), first_turns.clone());
    assert_eq!(outcome, Some(Ok(ID)));
    // The second row starts with the subject that the first one leaves.
    let (second_calls, second_outcome) = play(
        WindowManager::run_commands(second.clone(), replacement, &pending(), &config()),
        second_turns.clone(),
        |run, reply, state| run.resume(reply, state, &config()),
    );
    calls.extend(second_calls);
    let whole = run_row(
        [first, second].concat(),
        calm(),
        [first_turns, second_turns].concat(),
    );
    assert_eq!(whole, (calls, second_outcome));
}
