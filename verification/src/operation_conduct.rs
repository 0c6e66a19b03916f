//! What each operation of the window manager does, told by the calls that it asks
//! for.
use vstd::prelude::*;

use crate::auto_tiling;
use crate::call::{
    Action, Call, CleanupCall, CommandCall, Handler, ManagerCall, Reply, Step, Turn,
};
use crate::command::InvokeCommand;
use crate::command_dialogue;
use crate::command_dialogue::CommandDialogue;
use crate::conduct;
use crate::config::UserConfig;
use crate::dialogue::Dialogue;
use crate::error::WmError;
use crate::event::{
    ContainerDto, Keybinding, KeybindingConfig, PlatformEvent, WindowDto, WindowEvent, WmEvent,
};
use crate::manager_dialogue;
use crate::manager_dialogue::ManagerDialogue;
use crate::manager_laws;
use crate::process_commands;
use crate::process_commands::ProcessCommandsStep;
use crate::process_event;
use crate::process_event::EventStep;
use crate::process_wm_event;
use crate::process_wm_event::WmEventStep;
use crate::run_command;
use crate::run_command::CommandStep;
use crate::run_commands;
use crate::run_commands::CommandsStep;
use crate::state::{Container, WmState};
use crate::transcript;
use crate::uuid_text;
use crate::values::{ContainerId, TilingDirection, WindowState};
use crate::wm;
use crate::wm::{CleanupStep, StartStep, WindowManager};

verus! {

// ---------------------------------------------------------------------------
// Commands in a row.

/// A row without commands asks for nothing, and ends with the ID of its subject.
pub proof fn law_empty_row_ends_with_its_subject<E>(
    subject: Container,
    state: WmState,
    config: UserConfig,
)
    ensures
        manager_dialogue::commands_dialogue::<E>(Seq::empty(), subject, state, config)
            == ManagerDialogue::<E, Result<ContainerId, WmError<E>>>::Return(Ok(subject.id)),
{
}

/// A row runs its first command with its subject. After it the subject's own
/// node is looked at. A subject that is still in the tree stays the subject, with
/// what is now known of it; for one that is not, its own ID is looked up, and the
/// rest runs with the container that is found. Where none is found, the row ends
/// with the ID. The rest is decided in the state and by the configuration as they
/// are at the last reply.
pub proof fn law_row_runs_first_command_then_rest<E>(
    commands: Seq<InvokeCommand>,
    subject: Container,
    state: WmState,
    config: UserConfig,
    turns: Seq<Turn<E>>,
)
    requires
        commands.len() > 0,
    ensures
        ({
            let row = manager_dialogue::commands_dialogue::<E>(commands, subject, state, config);
            let command = command_dialogue::run_command_dialogue::<E>(
                commands[0],
                subject,
                state,
                config,
            );
            let replies = transcript::replies(turns);
            let asked = transcript::as_calls(command.questions(replies));
            let rest = commands.subrange(1, commands.len() as int);
            let turns1 = turns.skip(command.turns(replies) as int);
            let looks = Call::<Seq<char>>::Manage(ManagerCall::Inspect { node: subject.node });
            let searches = Call::<Seq<char>>::Manage(
                ManagerCall::ContainerById { id: subject.id },
            );
            match command.outcome(replies) {
                None => row.questions(turns) == asked && row.outcome(turns) is None,
                Some(Err(error)) => row.questions(turns) == asked && row.outcome(turns) == Some(
                    Err::<ContainerId, WmError<E>>(error),
                ),
                Some(Ok(_)) => if turns1.len() == 0 {
                    row.questions(turns) == asked.push(looks) && row.outcome(turns) is None
                } else {
                    match turns1[0].reply {
                        Reply::Facts(facts) => if !facts.is_detached {
                            let left = manager_dialogue::commands_dialogue::<E>(
                                rest,
                                Container { node: subject.node, id: subject.id, facts },
                                turns1[0].state,
                                turns1[0].config,
                            );
                            &&& row.questions(turns) == asked.push(looks) + left.questions(
                                turns1.skip(1),
                            )
                            &&& row.outcome(turns) == left.outcome(turns1.skip(1))
                        } else if turns1.len() == 1 {
                            row.questions(turns) == asked.push(looks).push(searches)
                                && row.outcome(turns) is None
                        } else {
                            match turns1[1].reply {
                                Reply::Container(Some(found)) => {
                                    let left = manager_dialogue::commands_dialogue::<E>(
                                        rest,
                                        found,
                                        turns1[1].state,
                                        turns1[1].config,
                                    );
                                    &&& row.questions(turns) == asked.push(looks).push(searches)
                                        + left.questions(turns1.skip(2))
                                    &&& row.outcome(turns) == left.outcome(turns1.skip(2))
                                },
                                Reply::Container(None) => {
                                    &&& row.questions(turns) == asked.push(looks).push(searches)
                                    &&& row.outcome(turns) == Some(
                                        Ok::<ContainerId, WmError<E>>(subject.id),
                                    )
                                },
                                reply => {
                                    &&& row.questions(turns) == asked.push(looks).push(searches)
                                    &&& row.outcome(turns) == Some(
                                        Err::<ContainerId, WmError<E>>(conduct::failure_of(reply)),
                                    )
                                },
                            }
                        },
                        reply => {
                            &&& row.questions(turns) == asked.push(looks)
                            &&& row.outcome(turns) == Some(
                                Err::<ContainerId, WmError<E>>(conduct::failure_of(reply)),
                            )
                        },
                    }
                },
            }
        }),
{
    let row = manager_dialogue::commands_dialogue::<E>(commands, subject, state, config);
    let command = command_dialogue::run_command_dialogue::<E>(commands[0], subject, state, config);
    let replies = transcript::replies(turns);
    let asked = transcript::as_calls(command.questions(replies));
    let rest = commands.drop_first();
    assert(rest =~= commands.subrange(1, commands.len() as int));
    let next = manager_dialogue::after_command::<E>(rest, subject);
    transcript::lemma_lifted(command, next, turns);
    let turns1 = turns.skip(command.turns(replies) as int);
    match command.outcome(replies) {
        Some(Ok(done)) => {
            let look = next(Ok(done));
            if turns1.len() == 0 {
                assert(row.questions(turns) =~= asked.push(look->Ask_0));
            } else {
                let turns2 = turns1.drop_first();
                assert(turns2 =~= turns1.skip(1));
                let left = look->Ask_1(turns1[0]);
                assert(look.questions(turns1) == seq![look->Ask_0] + left.questions(turns2));
                assert(look.outcome(turns1) == left.outcome(turns2));
                assert(row.questions(turns) =~= asked.push(look->Ask_0) + left.questions(turns2));
                if left is Return {
                    assert(left.questions(turns2) =~= Seq::empty());
                    assert(row.questions(turns) =~= asked.push(look->Ask_0)
                        + left.questions(turns2));
                }
                if (turns1[0].reply matches Reply::Facts(facts) && facts.is_detached) {
                    if turns2.len() == 0 {
                        assert(row.questions(turns) =~= asked.push(look->Ask_0).push(
                            left->Ask_0,
                        ));
                    } else {
                        let turns3 = turns2.drop_first();
                        assert(turns3 =~= turns1.skip(2));
                        assert(turns2[0] == turns1[1]);
                        let found = left->Ask_1(turns2[0]);
                        assert(left.questions(turns2) == seq![left->Ask_0] + found.questions(
                            turns3,
                        ));
                        assert(left.outcome(turns2) == found.outcome(turns3));
                        assert(row.questions(turns) =~= asked.push(look->Ask_0).push(
                            left->Ask_0,
                        ) + found.questions(turns3));
                        if found is Return {
                            assert(found.questions(turns3) =~= Seq::empty());
                        }
                    }
                } else if !(turns1[0].reply is Facts) {
                    assert(row.questions(turns) =~= asked.push(look->Ask_0));
                }
            }
        },
        Some(Err(_)) => {
            assert(asked + Seq::<Call<Seq<char>>>::empty() =~= asked);
        },
        None => {},
    }
}

// ---------------------------------------------------------------------------
// Processing commands.

/// Whether the operation, once it has asked what is `asked`, makes exactly these
/// calls, up to the first failure, and otherwise succeeds with `id`.
pub open spec fn winds_up_behind<E>(
    operation: ManagerDialogue<E, Result<ContainerId, WmError<E>>>,
    asked: Seq<Call<Seq<char>>>,
    calls: Seq<Call<Seq<char>>>,
    id: ContainerId,
    turns: Seq<Turn<E>>,
    rest: Seq<Turn<E>>,
) -> bool {
    exists|ending: ManagerDialogue<E, Result<ContainerId, WmError<E>>>|
        {
            &&& #[trigger] conduct::winds_up(ending, calls, id)
            &&& operation.questions(turns) == asked + ending.questions(rest)
            &&& operation.outcome(turns) == ending.outcome(rest)
        }
}

/// Whether the processing is that of the commands with that subject, followed by
/// an update of the platform where changes are queued then, and by the start of
/// the animation timer.
pub open spec fn runs_then_winds_up<E>(
    processing: ManagerDialogue<E, Result<ContainerId, WmError<E>>>,
    commands: Seq<InvokeCommand>,
    subject: Container,
    state: WmState,
    config: UserConfig,
    turns: Seq<Turn<E>>,
) -> bool {
    let row = manager_dialogue::commands_dialogue::<E>(commands, subject, state, config);
    let count = row.turns(turns);
    let now = transcript::state_after(state, turns, count);
    match row.outcome(turns) {
        Some(Ok(id)) => {
            let rest = turns.skip(count as int);
            let calls = if now.has_pending_changes {
                seq![conduct::sync_call(), conduct::timer_call()]
            } else {
                seq![conduct::timer_call()]
            };
            winds_up_behind(processing, row.questions(turns), calls, id, turns, rest)
        },
        _ => {
            &&& processing.questions(turns) == row.questions(turns)
            &&& processing.outcome(turns) == row.outcome(turns)
        },
    }
}

proof fn lemma_runs_then_winds_up<E>(
    commands: Seq<InvokeCommand>,
    subject: Container,
    state: WmState,
    config: UserConfig,
    turns: Seq<Turn<E>>,
)
    ensures
        runs_then_winds_up(
            manager_dialogue::run_and_sync::<E>(commands, subject, state, config),
            commands,
            subject,
            state,
            config,
            turns,
        ),
{
    let row = manager_dialogue::commands_dialogue::<E>(commands, subject, state, config);
    let whole = manager_dialogue::run_and_sync::<E>(commands, subject, state, config);
    transcript::lemma_followed(row, state, manager_dialogue::after_commands::<E>(), turns);
    let count = row.turns(turns);
    let now = transcript::state_after(state, turns, count);
    match row.outcome(turns) {
        Some(Ok(id)) => {
            let ending = manager_dialogue::sync_and_wrap_up::<E, ContainerId>(
                id,
                now.has_pending_changes,
                true,
            );
            conduct::lemma_winds_up::<E, ContainerId>(id, now.has_pending_changes, true);
            assert(seq![conduct::sync_call()] + seq![conduct::timer_call()] =~= seq![
                conduct::sync_call(),
                conduct::timer_call(),
            ]);
            assert(Seq::<Call<Seq<char>>>::empty() + seq![conduct::timer_call()] =~= seq![
                conduct::timer_call(),
            ]);
            let calls = if now.has_pending_changes {
                seq![conduct::sync_call(), conduct::timer_call()]
            } else {
                seq![conduct::timer_call()]
            };
            assert(conduct::winds_up(ending, calls, id));
        },
        Some(Err(_)) => {
            assert(whole.questions(turns) =~= row.questions(turns));
        },
        None => {},
    }
}

/// Commands without an ID are processed with the focused container. Without a
/// focused container nothing is asked for, and that is an error.
pub proof fn law_commands_run_with_focused_container<E>(
    commands: Seq<InvokeCommand>,
    state: WmState,
    config: UserConfig,
    turns: Seq<Turn<E>>,
)
    ensures
        ({
            let processing = manager_dialogue::process_commands_dialogue::<E>(
                commands,
                None,
                state,
                config,
            );
            match state.focused_container {
                Some(focused) => runs_then_winds_up(
                    processing,
                    commands,
                    focused,
                    state,
                    config,
                    turns,
                ),
                None => processing == ManagerDialogue::<
                    E,
                    Result<ContainerId, WmError<E>>,
                >::Return(Err(WmError::NoSubjectContainer)),
            }
        }),
{
    if let Some(focused) = state.focused_container {
        lemma_runs_then_winds_up(commands, focused, state, config, turns);
    }
}

/// Commands with an ID are processed with the container of that ID, whatever has
/// focus. Where there is none, that is an error with that ID.
pub proof fn law_commands_run_with_container_of_id<E>(
    commands: Seq<InvokeCommand>,
    id: ContainerId,
    state: WmState,
    config: UserConfig,
    turn: Turn<E>,
    turns: Seq<Turn<E>>,
)
    ensures
        ({
            let processing = manager_dialogue::process_commands_dialogue::<E>(
                commands,
                Some(id),
                state,
                config,
            );
            let left = processing->Ask_1(turn);
            &&& processing is Ask
            &&& processing->Ask_0 == Call::<Seq<char>>::Manage(ManagerCall::ContainerById { id })
            &&& match turn.reply {
                Reply::Container(Some(found)) => runs_then_winds_up(
                    left,
                    commands,
                    found,
                    turn.state,
                    turn.config,
                    turns,
                ),
                Reply::Container(None) => left == ManagerDialogue::<
                    E,
                    Result<ContainerId, WmError<E>>,
                >::Return(Err(WmError::ContainerNotFound { id })),
                reply => left == ManagerDialogue::<E, Result<ContainerId, WmError<E>>>::Return(
                    Err(conduct::failure_of(reply)),
                ),
            }
        }),
{
    if let Reply::Container(Some(found)) = turn.reply {
        lemma_runs_then_winds_up(commands, found, turn.state, turn.config, turns);
    }
}

// ---------------------------------------------------------------------------
// Processing events of the platform.

/// Whether the configuration has a binding of the very keys, one by one.
pub open spec fn binds(config: KeybindingConfig, binding: int, keys: Seq<u16>) -> bool {
    &&& 0 <= binding < config.bindings@.len()
    &&& config.bindings@[binding].keys@.len() == keys.len()
    &&& forall|i: int|
        0 <= i < keys.len() ==> #[trigger] config.bindings@[binding].keys@[i] == keys[i]
}

proof fn lemma_binds(config: KeybindingConfig, keys: Seq<u16>)
    ensures
        manager_dialogue::is_bound(config, keys) <==> exists|binding: int|
            #[trigger] binds(config, binding, keys),
{
    if manager_dialogue::is_bound(config, keys) {
        let i = choose|i: int|
            0 <= i < config.bindings@.len() && (#[trigger] config.bindings@[i]).keys@ == keys;
        assert(binds(config, i, keys));
    }
    if exists|binding: int| #[trigger] binds(config, binding, keys) {
        let binding = choose|binding: int| #[trigger] binds(config, binding, keys);
        assert(config.bindings@[binding].keys@ =~= keys);
    }
}

/// Pressed keys look for the active keybindings, with the pause as it is. The
/// commands of the first configuration that has a binding of the very keys, equal
/// in number and each at its place, are then processed, with the focused
/// container.
pub proof fn law_keys_run_commands_of_equal_binding<E>(
    keybinding: Keybinding,
    state: WmState,
    configs: Vec<KeybindingConfig>,
    first: int,
    binding: int,
    turns: Seq<Turn<E>>,
)
    requires
        turns.len() > 0,
        turns[0].reply == Reply::<E>::Keybindings(configs),
        0 <= first < configs@.len(),
        0 <= binding < configs@[first].bindings@.len(),
        configs@[first].bindings@[binding].keys@.len() == keybinding.keys@.len(),
        forall|i: int|
            0 <= i < keybinding.keys@.len()
                ==> #[trigger] configs@[first].bindings@[binding].keys@[i] == keybinding.keys@[i],
        forall|earlier: int, other: int|
            0 <= earlier < first && 0 <= other < (
            #[trigger] configs@[earlier]).bindings@.len() ==> (
            #[trigger] configs@[earlier].bindings@[other]).keys@ != keybinding.keys@,
    ensures
        ({
            let event = manager_dialogue::process_event_dialogue::<E>(
                PlatformEvent::Keybinding(keybinding),
                state,
            );
            let rest = turns.skip(1);
            let processing = manager_dialogue::process_commands_dialogue::<E>(
                configs@[first].commands@,
                None,
                turns[0].state,
                turns[0].config,
            );
            &&& event.questions(turns) == seq![
                Call::<Seq<char>>::Manage(
                    ManagerCall::ActiveKeybindings { is_paused: state.is_paused },
                ),
            ] + processing.questions(rest)
            &&& event.outcome(turns) == match processing.outcome(rest) {
                Some(Ok(_)) => Some(Ok::<(), WmError<E>>(())),
                Some(Err(error)) => Some(Err::<(), WmError<E>>(error)),
                None => None,
            }
        }),
{
    let keys = keybinding.keys@;
    assert(binds(configs@[first], binding, keys));
    lemma_binds(configs@[first], keys);
    assert forall|i: int| 0 <= i < first implies !manager_dialogue::is_bound(
        #[trigger] configs@[i],
        keys,
    ) by {}
    manager_laws::law_first_keybinding_counts(configs@, keys, first);
    let event = manager_dialogue::process_event_dialogue::<E>(
        PlatformEvent::Keybinding(keybinding),
        state,
    );
    let rest = turns.drop_first();
    assert(rest =~= turns.skip(1));
    let processing = manager_dialogue::process_commands_dialogue::<E>(
        configs@[first].commands@,
        None,
        turns[0].state,
        turns[0].config,
    );
    let left = event->Ask_1(turns[0]);
    let next = manager_dialogue::without_subject::<E>();
    assert(left == manager_dialogue::followed(processing, turns[0].state, next));
    transcript::lemma_followed(processing, turns[0].state, next, rest);
    assert(event.questions(turns) == seq![event->Ask_0] + left.questions(rest));
    assert(event.outcome(turns) == left.outcome(rest));
    assert(left.questions(rest) =~= processing.questions(rest));
}

/// Keys that no binding equals, in number and each at its place, run nothing.
pub proof fn law_keys_without_equal_binding_run_nothing<E>(
    keybinding: Keybinding,
    state: WmState,
    configs: Vec<KeybindingConfig>,
    turns: Seq<Turn<E>>,
)
    requires
        turns.len() > 0,
        turns[0].reply == Reply::<E>::Keybindings(configs),
        forall|config: int, other: int|
            0 <= config < configs@.len() && 0 <= other < (
            #[trigger] configs@[config]).bindings@.len() ==> (
            #[trigger] configs@[config].bindings@[other]).keys@ != keybinding.keys@,
    ensures
        ({
            let event = manager_dialogue::process_event_dialogue::<E>(
                PlatformEvent::Keybinding(keybinding),
                state,
            );
            &&& event.questions(turns) == seq![
                Call::<Seq<char>>::Manage(
                    ManagerCall::ActiveKeybindings { is_paused: state.is_paused },
                ),
            ]
            &&& event.outcome(turns) == Some(Ok::<(), WmError<E>>(()))
        }),
{
    assert forall|i: int| 0 <= i < configs@.len() implies !manager_dialogue::is_bound(
        #[trigger] configs@[i],
        keybinding.keys@,
    ) by {}
    manager_laws::law_unbound_keys_do_nothing(keybinding, state, configs, turns);
    let event = manager_dialogue::process_event_dialogue::<E>(
        PlatformEvent::Keybinding(keybinding),
        state,
    );
    assert(event.questions(turns)[0] == event->Ask_0);
    assert(event.questions(turns) =~= seq![event->Ask_0]);
}

/// Pressed keys without an answer to the search for active keybindings are an
/// error.
pub proof fn law_keys_without_keybindings_fail<E>(
    keybinding: Keybinding,
    state: WmState,
    turn: Turn<E>,
)
    requires
        !(turn.reply is Keybindings),
    ensures
        ({
            let event = manager_dialogue::process_event_dialogue::<E>(
                PlatformEvent::Keybinding(keybinding),
                state,
            );
            &&& event is Ask
            &&& event->Ask_1(turn) == ManagerDialogue::<E, Result<(), WmError<E>>>::Return(
                Err(conduct::failure_of(turn.reply)),
            )
        }),
{
}

/// An event that is no keybinding goes to the handler for it, with what it is
/// about. After that the platform is told of queued changes, unless the window
/// manager is paused, and the animation timer is started.
pub proof fn law_event_goes_to_its_handler<E>(event: PlatformEvent, state: WmState, turn: Turn<E>)
    requires
        !(event is Keybinding),
    ensures
        ({
            let operation = manager_dialogue::process_event_dialogue::<E>(event, state);
            let is_due = !turn.state.is_paused && turn.state.has_pending_changes;
            &&& operation is Ask
            &&& operation->Ask_0 matches Call::Manage(ManagerCall::Handle(handler)) && match event {
                PlatformEvent::DisplaySettingsChanged => handler is DisplaySettingsChanged,
                PlatformEvent::Mouse { ticket } => handler == (Handler::MouseMove { ticket }),
                PlatformEvent::Window(WindowEvent::Focused { window }) => handler == (
                Handler::WindowFocused { window }),
                PlatformEvent::Window(WindowEvent::Shown { window }) => handler == (
                Handler::WindowShown { window }),
                PlatformEvent::Window(WindowEvent::Hidden { window }) => handler == (
                Handler::WindowHidden { window }),
                PlatformEvent::Window(
                    WindowEvent::MovedOrResized {
                        window,
                        is_interactive_start,
                        is_interactive_end,
                    },
                ) => handler == (Handler::WindowMovedOrResized {
                    window,
                    is_interactive_start,
                    is_interactive_end,
                }),
                PlatformEvent::Window(WindowEvent::Minimized { window }) => handler == (
                Handler::WindowMinimized { window }),
                PlatformEvent::Window(WindowEvent::MinimizeEnded { window }) => handler == (
                Handler::WindowMinimizeEnded { window }),
                PlatformEvent::Window(WindowEvent::TitleChanged { window }) => handler == (
                Handler::WindowTitleChanged { window }),
                PlatformEvent::Window(WindowEvent::Destroyed { window_id }) => handler == (
                Handler::WindowDestroyed { window_id }),
                PlatformEvent::Keybinding(_) => false,
            }
            &&& turn.reply is Done && is_due ==> conduct::winds_up(
                operation->Ask_1(turn),
                seq![conduct::sync_call(), conduct::timer_call()],
                (),
            )
            &&& turn.reply is Done && !is_due ==> conduct::winds_up(
                operation->Ask_1(turn),
                seq![conduct::timer_call()],
                (),
            )
            &&& !(turn.reply is Done) ==> operation->Ask_1(turn) == ManagerDialogue::<
                E,
                Result<(), WmError<E>>,
            >::Return(Err(conduct::failure_of(turn.reply)))
        }),
{
    let is_due = !turn.state.is_paused && turn.state.has_pending_changes;
    conduct::lemma_winds_up::<E, ()>((), is_due, true);
    assert(seq![conduct::sync_call()] + seq![conduct::timer_call()] =~= seq![
        conduct::sync_call(),
        conduct::timer_call(),
    ]);
    assert(Seq::<Call<Seq<char>>>::empty() + seq![conduct::timer_call()] =~= seq![
        conduct::timer_call(),
    ]);
}

/// The start of a drag is handled as the start of an interactive move of that
/// window, and its end as the end of one. After that the platform is told of
/// queued changes, unless the window manager is paused.
pub proof fn law_drag_starts_or_ends_a_move<E>(native_window: u64, is_start: bool, turn: Turn<E>)
    ensures
        ({
            let drag = manager_dialogue::process_window_drag_dialogue::<E>(native_window, is_start);
            let is_due = !turn.state.is_paused && turn.state.has_pending_changes;
            &&& drag is Ask
            &&& drag->Ask_0 == Call::<Seq<char>>::Manage(
                ManagerCall::Handle(
                    Handler::WindowMovedOrResized {
                        window: native_window,
                        is_interactive_start: is_start,
                        is_interactive_end: !is_start,
                    },
                ),
            )
            &&& turn.reply is Done && is_due ==> conduct::winds_up(
                drag->Ask_1(turn),
                seq![conduct::sync_call()],
                (),
            )
            &&& turn.reply is Done && !is_due ==> conduct::winds_up(drag->Ask_1(turn), seq![], ())
            &&& !(turn.reply is Done) ==> drag->Ask_1(turn) == ManagerDialogue::<
                E,
                Result<(), WmError<E>>,
            >::Return(Err(conduct::failure_of(turn.reply)))
        }),
{
    let is_due = !turn.state.is_paused && turn.state.has_pending_changes;
    conduct::lemma_winds_up::<E, ()>((), is_due, false);
    assert(seq![conduct::sync_call()] + Seq::<Call<Seq<char>>>::empty() =~= seq![
        conduct::sync_call(),
    ]);
    assert(Seq::<Call<Seq<char>>>::empty() + Seq::<Call<Seq<char>>>::empty() =~= Seq::<
        Call<Seq<char>>,
    >::empty());
}

/// Updating the animations is one call, and ends as that does.
pub proof fn law_animations_are_updated_once<E>()
    ensures
        conduct::winds_up(
            manager_dialogue::update_animations_dialogue::<E>(),
            seq![Call::<Seq<char>>::Manage(ManagerCall::UpdateAnimations)],
            (),
        ),
{
    reveal_with_fuel(conduct::winds_up, 2);
    assert(seq![Call::<Seq<char>>::Manage(ManagerCall::UpdateAnimations)].drop_first()
        =~= Seq::empty());
}

// ---------------------------------------------------------------------------
// Processing events of the window manager.

/// Nothing follows from an event where the configuration does not let the tiling
/// direction follow the shape of windows.
pub proof fn law_shape_counts_only_where_configured<E>(event: WmEvent, config: UserConfig)
    requires
        !config.auto_set_tiling_direction,
    ensures
        manager_dialogue::process_wm_event_dialogue::<E>(event, config) == ManagerDialogue::<
            E,
            Result<(), WmError<E>>,
        >::Return(Ok(())),
{
}

/// Nothing follows from an event that is not about a window with focus.
pub proof fn law_shape_counts_only_of_focused_window<E>(event: WmEvent, config: UserConfig)
    requires
        match event {
            WmEvent::FocusChanged { focused_container } => focused_container is Other,
            WmEvent::FocusedContainerMoved { focused_container } => focused_container is Other,
            WmEvent::ApplicationExiting => true,
            WmEvent::Other => true,
        },
    ensures
        manager_dialogue::process_wm_event_dialogue::<E>(event, config) == ManagerDialogue::<
            E,
            Result<(), WmError<E>>,
        >::Return(Ok(())),
{
}

/// The window that came into focus, or moved with it, is looked up. Only where it
/// is a window in the tiling state is its rectangle asked for; a floating, a
/// fullscreen or a minimized one is left alone, and so is any other container.
pub proof fn law_only_tiling_window_is_measured<E>(
    window: WindowDto,
    config: UserConfig,
    turn: Turn<E>,
)
    requires
        config.auto_set_tiling_direction,
    ensures
        ({
            let changed = manager_dialogue::process_wm_event_dialogue::<E>(
                WmEvent::FocusChanged { focused_container: ContainerDto::Window(window) },
                config,
            );
            let moved = manager_dialogue::process_wm_event_dialogue::<E>(
                WmEvent::FocusedContainerMoved { focused_container: ContainerDto::Window(window) },
                config,
            );
            let left = changed->Ask_1(turn);
            &&& moved == changed
            &&& changed is Ask
            &&& changed->Ask_0 == Call::<Seq<char>>::Manage(
                ManagerCall::ContainerById { id: window.id },
            )
            &&& match turn.reply {
                Reply::Container(Some(found)) => match found.facts.window {
                    Some(facts) => match facts.state {
                        WindowState::Tiling => {
                            &&& left is Ask
                            &&& left->Ask_0 == Call::<Seq<char>>::Command(
                                CommandCall::Act(Action::WindowRect { window: found.node }),
                            )
                        },
                        WindowState::Floating(_) => left == ManagerDialogue::<
                            E,
                            Result<(), WmError<E>>,
                        >::Return(Ok(())),
                        WindowState::Fullscreen(_) => left == ManagerDialogue::<
                            E,
                            Result<(), WmError<E>>,
                        >::Return(Ok(())),
                        WindowState::Minimized => left == ManagerDialogue::<
                            E,
                            Result<(), WmError<E>>,
                        >::Return(Ok(())),
                    },
                    None => left == ManagerDialogue::<E, Result<(), WmError<E>>>::Return(Ok(())),
                },
                Reply::Container(None) => left == ManagerDialogue::<
                    E,
                    Result<(), WmError<E>>,
                >::Return(Ok(())),
                reply => left == ManagerDialogue::<E, Result<(), WmError<E>>>::Return(
                    Err(conduct::failure_of(reply)),
                ),
            }
        }),
{
}

/// A tiling window that is higher than wide gets the vertical direction, one that
/// is wider than high the horizontal one, by the rectangle that it has, and a
/// square one keeps the direction that it has.
pub proof fn law_tiling_window_turns_along_longer_side<E>(
    window: WindowDto,
    config: UserConfig,
    turn: Turn<E>,
    found: Container,
    measured: Turn<E>,
)
    requires
        config.auto_set_tiling_direction,
        turn.reply == Reply::<E>::Container(Some(found)),
        found.facts.window is Some,
        found.facts.window->0.state == WindowState::Tiling,
    ensures
        ({
            let event = manager_dialogue::process_wm_event_dialogue::<E>(
                WmEvent::FocusChanged { focused_container: ContainerDto::Window(window) },
                config,
            );
            let left = event->Ask_1(turn)->Ask_1(measured);
            match measured.reply {
                Reply::Rect(rect) => {
                    &&& rect.width < rect.height ==> conduct::winds_up(
                        left,
                        seq![
                            Call::<Seq<char>>::Command(
                                CommandCall::Act(
                                    Action::SetTilingDirection {
                                        container: found.node,
                                        direction: TilingDirection::Vertical,
                                    },
                                ),
                            ),
                        ],
                        (),
                    )
                    &&& rect.width > rect.height ==> conduct::winds_up(
                        left,
                        seq![
                            Call::<Seq<char>>::Command(
                                CommandCall::Act(
                                    Action::SetTilingDirection {
                                        container: found.node,
                                        direction: TilingDirection::Horizontal,
                                    },
                                ),
                            ),
                        ],
                        (),
                    )
                    &&& rect.width == rect.height ==> left == ManagerDialogue::<
                        E,
                        Result<(), WmError<E>>,
                    >::Return(Ok(()))
                },
                reply => left == ManagerDialogue::<E, Result<(), WmError<E>>>::Return(
                    Err(conduct::failure_of(reply)),
                ),
            }
        }),
{
    reveal_with_fuel(conduct::winds_up, 2);
    let vertical = Call::<Seq<char>>::Command(
        CommandCall::Act(
            Action::SetTilingDirection {
                container: found.node,
                direction: TilingDirection::Vertical,
            },
        ),
    );
    let horizontal = Call::<Seq<char>>::Command(
        CommandCall::Act(
            Action::SetTilingDirection {
                container: found.node,
                direction: TilingDirection::Horizontal,
            },
        ),
    );
    assert(seq![vertical].drop_first() =~= Seq::empty());
    assert(seq![horizontal].drop_first() =~= Seq::empty());
}

/// A window that is higher than wide tiles vertically, one that is wider than high
/// horizontally, and a square one has no direction.
pub proof fn law_direction_is_along_longer_side(width: int, height: int)
    ensures
        width < height ==> auto_tiling::along_longer_side(width, height) == Some(
            TilingDirection::Vertical,
        ),
        width > height ==> auto_tiling::along_longer_side(width, height) == Some(
            TilingDirection::Horizontal,
        ),
        width == height ==> auto_tiling::along_longer_side(width, height) is None,
{
}

/// The window whose shape counts is the one that the event is about.
pub proof fn law_followed_window_is_that_of_event(window: WindowDto)
    ensures
        auto_tiling::window_to_follow(
            WmEvent::FocusChanged { focused_container: ContainerDto::Window(window) },
        ) == Some(window.id),
        auto_tiling::window_to_follow(
            WmEvent::FocusedContainerMoved { focused_container: ContainerDto::Window(window) },
        ) == Some(window.id),
        auto_tiling::window_to_follow(
            WmEvent::FocusChanged { focused_container: ContainerDto::Other },
        ) is None,
        auto_tiling::window_to_follow(
            WmEvent::FocusedContainerMoved { focused_container: ContainerDto::Other },
        ) is None,
        auto_tiling::window_to_follow(WmEvent::ApplicationExiting) is None,
        auto_tiling::window_to_follow(WmEvent::Other) is None,
{
}

// ---------------------------------------------------------------------------
// Starting and exiting.

/// A start fills the state, starts the animation timer, and ends with a window
/// manager that has the state as it is then. A failure of either ends it.
pub proof fn law_start_fills_state_then_starts_timer<E>(filled: Turn<E>, started: Turn<E>)
    ensures
        ({
            let start = manager_dialogue::new_dialogue::<E>();
            let timer = start->Ask_1(filled);
            &&& start is Ask
            &&& start->Ask_0 == Call::<Seq<char>>::Manage(ManagerCall::Populate)
            &&& !(filled.reply is Done) ==> timer == ManagerDialogue::<
                E,
                Result<WindowManager, WmError<E>>,
            >::Return(Err(conduct::failure_of(filled.reply)))
            &&& filled.reply is Done ==> {
                &&& timer is Ask
                &&& timer->Ask_0 == conduct::timer_call()
                &&& timer->Ask_1(started) == if started.reply is Done {
                    ManagerDialogue::<E, Result<WindowManager, WmError<E>>>::Return(
                        Ok(WindowManager { state: started.state }),
                    )
                } else {
                    ManagerDialogue::<E, Result<WindowManager, WmError<E>>>::Return(
                        Err(conduct::failure_of(started.reply)),
                    )
                }
            }
        }),
{
}

/// An exit announces itself, ends the pause and processes the shutdown commands,
/// from the state and the configuration as they are then, whatever the replies to
/// the first two calls were.
pub proof fn law_exit_processes_shutdown_commands<E>(
    shutdown_commands: Seq<InvokeCommand>,
    announced: Turn<E>,
    unpaused: Turn<E>,
)
    ensures
        ({
            let shutdown = manager_dialogue::shutdown_dialogue::<E>(shutdown_commands);
            let exit = wm::shut_down(shutdown);
            let unpause = wm::cleanup_next((exit->0).1, announced);
            let commands = wm::cleanup_next((unpause->0).1, unpaused);
            &&& exit is Some
            &&& (exit->0).0 == CleanupCall::<Seq<char>, E>::Make(
                Call::Manage(ManagerCall::EmitApplicationExiting),
            )
            &&& unpause is Some
            &&& (unpause->0).0 == CleanupCall::<Seq<char>, E>::Make(
                Call::Manage(ManagerCall::Unpause),
            )
            &&& commands == wm::shut_down(
                manager_dialogue::process_commands_dialogue::<E>(
                    shutdown_commands,
                    None,
                    unpaused.state,
                    unpaused.config,
                ),
            )
        }),
{
}

/// An exit goes on from each reply as its shutdown does, call by call. Where the
/// shutdown has failed, it warns of the very error, and then, or else at once, it
/// takes the next event.
pub proof fn law_exit_follows_its_shutdown<E>(
    call: Call<Seq<char>>,
    next: spec_fn(Turn<E>) -> ManagerDialogue<E, Result<ContainerId, WmError<E>>>,
    id: ContainerId,
    error: WmError<E>,
    turn: Turn<E>,
)
    ensures
        ({
            let asking = wm::shut_down(
                ManagerDialogue::<E, Result<ContainerId, WmError<E>>>::Ask(call, next),
            );
            let succeeded = wm::shut_down(
                ManagerDialogue::<E, Result<ContainerId, WmError<E>>>::Return(Ok(id)),
            );
            let failed = wm::shut_down(
                ManagerDialogue::<E, Result<ContainerId, WmError<E>>>::Return(Err(error)),
            );
            let warned = wm::cleanup_next((failed->0).1, turn);
            &&& asking is Some
            &&& (asking->0).0 == CleanupCall::<Seq<char>, E>::Make(call)
            &&& wm::cleanup_next((asking->0).1, turn) == wm::shut_down(next(turn))
            &&& succeeded is Some
            &&& (succeeded->0).0 == CleanupCall::<Seq<char>, E>::Make(
                Call::Manage(ManagerCall::NextEvent),
            )
            &&& failed is Some
            &&& (failed->0).0 == CleanupCall::<Seq<char>, E>::WarnOfShutdown(error)
            &&& warned == succeeded
        }),
{
}

/// An exit that has taken an event publishes that very event and, whatever comes
/// of it, takes the next. Where there was none to take, it ends.
pub proof fn law_exit_takes_and_publishes_by_turns<E>(
    id: ContainerId,
    taken: Turn<E>,
    published: Turn<E>,
)
    ensures
        ({
            let taking = wm::shut_down(
                ManagerDialogue::<E, Result<ContainerId, WmError<E>>>::Return(Ok(id)),
            );
            let publishing = wm::cleanup_next((taking->0).1, taken);
            match taken.reply {
                Reply::Event(Some(ticket)) => {
                    &&& publishing is Some
                    &&& (publishing->0).0 == CleanupCall::<Seq<char>, E>::Make(
                        Call::Manage(ManagerCall::PublishEvent { ticket }),
                    )
                    &&& wm::cleanup_next((publishing->0).1, published) == taking
                },
                _ => publishing is None,
            }
        }),
{
}

// ---------------------------------------------------------------------------
// Steps, calls and errors as they are seen.

/// A call that is to be made is seen as it is, its text by its characters.
pub proof fn law_calls_are_seen_as_they_are<E>(
    action: Action,
    line: String,
    hide_window: bool,
    call: CommandCall<String>,
    manager_call: ManagerCall,
    any: Call<String>,
    error: WmError<E>,
)
    ensures
        CommandCall::<String>::Act(action)@ == CommandCall::<Seq<char>>::Act(action),
        (CommandCall::ShellExec { command: line, hide_window })@ == (CommandCall::ShellExec {
            command: line@,
            hide_window,
        }),
        Call::Command(call)@ == Call::Command(call@),
        Call::<String>::Manage(manager_call)@ == Call::<Seq<char>>::Manage(manager_call),
        CleanupCall::<String, E>::Make(any)@ == CleanupCall::<Seq<char>, E>::Make(any@),
        CleanupCall::<String, E>::WarnOfShutdown(error)@ == CleanupCall::<
            Seq<char>,
            E,
        >::WarnOfShutdown(error),
{
}

/// A step that has ended is seen as the end that it has.
pub proof fn law_ends_are_seen_as_they_are<E>(
    command: Result<(), WmError<E>>,
    row: Result<ContainerId, WmError<E>>,
    start: Result<WindowManager, WmError<E>>,
)
    ensures
        run_command::command_step_dialogue(CommandStep::<E>::Finished(command))
            == CommandDialogue::<E>::Return(command),
        run_commands::commands_step_dialogue(CommandsStep::<E>::Finished(row))
            == ManagerDialogue::<E, Result<ContainerId, WmError<E>>>::Return(row),
        process_commands::process_commands_step_dialogue(ProcessCommandsStep::<E>::Finished(row))
            == ManagerDialogue::<E, Result<ContainerId, WmError<E>>>::Return(row),
        process_event::event_step_dialogue(EventStep::<E>::Finished(command))
            == ManagerDialogue::<E, Result<(), WmError<E>>>::Return(command),
        process_wm_event::wm_event_step_dialogue(WmEventStep::<E>::Finished(command))
            == ManagerDialogue::<E, Result<(), WmError<E>>>::Return(command),
        wm::start_step_dialogue(StartStep::<E>::Finished(start)) == ManagerDialogue::<
            E,
            Result<WindowManager, WmError<E>>,
        >::Return(start),
        wm::cleanup_step_next(CleanupStep::<E>::Finished(())) is None,
{
}

/// A step that waits is seen as the call that it waits for, and goes on as its
/// run does.
pub proof fn law_waits_are_seen_as_they_are<E>(
    command: CommandStep<E>,
    row: CommandsStep<E>,
    processing: ProcessCommandsStep<E>,
    event: EventStep<E>,
    wm_event: WmEventStep<E>,
    start: StartStep<E>,
    exit: CleanupStep<E>,
)
    ensures
        command matches Step::Call(call, run) ==> run_command::command_step_dialogue(command)
            == Dialogue::Ask(call@, run.resumption::<E>()),
        row matches Step::Call(call, run) ==> run_commands::commands_step_dialogue(row)
            == Dialogue::Ask(call@, run.resumption::<E>()),
        processing matches Step::Call(call, run)
            ==> process_commands::process_commands_step_dialogue(processing) == Dialogue::Ask(
            call@,
            run.resumption::<E>(),
        ),
        event matches Step::Call(call, run) ==> process_event::event_step_dialogue(event)
            == Dialogue::Ask(call@, run.resumption::<E>()),
        wm_event matches Step::Call(call, run) ==> process_wm_event::wm_event_step_dialogue(
            wm_event,
        ) == Dialogue::Ask(call@, run.resumption::<E>()),
        start matches Step::Call(call, run) ==> wm::start_step_dialogue(start) == Dialogue::Ask(
            call@,
            run.resumption::<E>(),
        ),
        exit matches Step::Call(call, run) ==> wm::cleanup_step_next(exit) == Some(
            (call@, run.awaited::<E>()),
        ),
{
}

/// What each error tells the user. One of the host tells its own.
pub proof fn law_errors_tell_what_happened<E>(id: ContainerId, error: E)
    ensures
        (WmError::<E>::ContainerNotFound { id }).text() == Some(
            "No container found with the given ID '"@ + uuid_text::hyphenated(id.value) + "'."@,
        ),
        WmError::<E>::NoSubjectContainer.text() == Some("No subject container for command."@),
        WmError::<E>::SubjectDetached.text() == Some(
            "Cannot run command because subject container is detached."@,
        ),
        WmError::<E>::NoWorkspace.text() == Some("No workspace."@),
        WmError::<E>::WorkspaceNotFound.text() == Some("Workspace doesn't exist."@),
        WmError::<E>::Host(error).text() is None,
{
}

/// The text of an ID has thirty-six characters. Hyphens stand at four of the
/// places; at each other place stands a digit or a letter from `a` to `f`, at the
/// last place that of the ID's lowest four bits.
pub proof fn law_id_text_is_grouped(value: u128, place: int)
    requires
        0 <= place < 36,
    ensures
        ({
            let text = uuid_text::hyphenated(value);
            let lowest = value as int % 16;
            &&& text.len() == 36
            &&& (text[place] == '-' <==> place == 8 || place == 13 || place == 18 || place == 23)
            &&& text[place] != '-' ==> '0' <= text[place] <= '9' || 'a' <= text[place] <= 'f'
            &&& lowest < 10 ==> text[35] as int == '0' as int + lowest
            &&& lowest >= 10 ==> text[35] as int == 'a' as int + lowest - 10
        }),
{
    vstd::arithmetic::power::lemma_pow0(16);
    let lowest = value as int % 16;
    assert(uuid_text::nibble(value, 31) == lowest);
    assert(0 <= uuid_text::nibble(value, place - uuid_text::hyphens_before(place)) < 16);
}

} // verus!
