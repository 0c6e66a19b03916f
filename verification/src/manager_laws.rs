//! What holds of the window manager around its commands, whatever the replies
//! to its calls are.
use vstd::prelude::*;

use crate::auto_tiling;
use crate::call::{Action, Call, CleanupCall, CommandCall, ManagerCall, Reply, Turn};
use crate::command::InvokeCommand;
use crate::command_dialogue;
use crate::command_dialogue::CommandDialogue;
use crate::config::UserConfig;
use crate::dialogue::Dialogue;
use crate::error::WmError;
use crate::event::{Keybinding, KeybindingConfig, PlatformEvent, WindowEvent, WmEvent};
use crate::manager_dialogue;
use crate::manager_dialogue::ManagerDialogue;
use crate::state::{Container, WmState};
use crate::transcript;
use crate::values::ContainerId;
use crate::wm;
use crate::wm::{Cleanup, CleanupNext};

verus! {

// ---------------------------------------------------------------------------
// Commands in a row.

/// Whether the call is a command's, or looks at a container.
pub open spec fn is_command_or_look(call: Call<Seq<char>>) -> bool {
    match call {
        Call::Command(_) => true,
        Call::Manage(ManagerCall::Inspect { .. }) => true,
        Call::Manage(ManagerCall::ContainerById { .. }) => true,
        Call::Manage(_) => false,
    }
}

/// Whether a search for an ID was not answered by a container of another ID.
pub open spec fn is_answered_by_id<E>(call: Call<Seq<char>>, turn: Turn<E>) -> bool {
    match (call, turn.reply) {
        (
            Call::Manage(ManagerCall::ContainerById { id }),
            Reply::Container(Some(container)),
        ) => container.id == id,
        _ => true,
    }
}

/// Whether every search for an ID was answered so.
pub open spec fn are_answered_by_id<E>(calls: Seq<Call<Seq<char>>>, turns: Seq<Turn<E>>) -> bool {
    forall|i: int|
        0 <= i < calls.len() && i < turns.len() ==> is_answered_by_id(
            #[trigger] calls[i],
            turns[i],
        )
}

/// Whether the window manager is paused, from the start and through all turns.
pub open spec fn stays_paused<E>(state: WmState, turns: Seq<Turn<E>>) -> bool {
    &&& state.is_paused
    &&& forall|i: int| 0 <= i < turns.len() ==> (#[trigger] turns[i]).state.is_paused
}

/// Whether one of the commands toggles the pause.
pub open spec fn toggles_pause(commands: Seq<InvokeCommand>) -> bool {
    exists|i: int| 0 <= i < commands.len() && (#[trigger] commands[i]) is WmTogglePause
}

proof fn lemma_row<E>(
    commands: Seq<InvokeCommand>,
    subject: Container,
    state: WmState,
    config: UserConfig,
    turns: Seq<Turn<E>>,
)
    ensures
        ({
            let row = manager_dialogue::commands_dialogue::<E>(commands, subject, state, config);
            let calls = row.questions(turns);
            &&& forall|i: int| 0 <= i < calls.len() ==> is_command_or_look(#[trigger] calls[i])
            &&& stays_paused(state, turns) && !toggles_pause(commands) ==> forall|i: int|
                0 <= i < calls.len() ==> !(#[trigger] calls[i] is Command)
            &&& are_answered_by_id(calls, turns) ==> (row.outcome(turns) matches Some(Ok(id)) ==> id
                == subject.id)
        }),
    decreases commands.len(),
{
    let row = manager_dialogue::commands_dialogue::<E>(commands, subject, state, config);
    let calls = row.questions(turns);
    if commands.len() > 0 {
        let rest = commands.drop_first();
        let command = command_dialogue::run_command_dialogue::<E>(
            commands[0],
            subject,
            state,
            config,
        );
        let next = manager_dialogue::after_command::<E>(rest, subject);
        let replies = transcript::replies(turns);
        transcript::lemma_lifted(command, next, turns);
        command.lemma_turns(replies);
        let count = command.turns(replies) as int;
        let asked = transcript::as_calls(command.questions(replies));
        assert(toggles_pause(rest) ==> toggles_pause(commands)) by {
            if toggles_pause(rest) {
                let i = choose|i: int| 0 <= i < rest.len() && (#[trigger] rest[i]) is WmTogglePause;
                assert(commands[i + 1] is WmTogglePause);
            }
        }
        assert(state.is_paused && !toggles_pause(commands) ==> command is Return) by {
            if commands[0] is WmTogglePause {
                assert(toggles_pause(commands));
            }
        }
        match command.outcome(replies) {
            Some(Ok(_)) => {
                let turns1 = turns.skip(count);
                let left1 = next(Ok(()));
                if turns1.len() > 0 {
                    let turns2 = turns1.drop_first();
                    let left2 = manager_dialogue::after_inspection::<E>(rest, subject)(turns1[0]);
                    assert(left1.questions(turns1) == seq![left1->Ask_0] + left2.questions(turns2));
                    assert(left1.outcome(turns1) == left2.outcome(turns2));
                    assert(calls == asked + (seq![left1->Ask_0] + left2.questions(turns2)));
                    assert(turns1[0] == turns[count]);
                    match turns1[0].reply {
                        Reply::Facts(facts) => {
                            if facts.is_detached {
                                if turns2.len() > 0 {
                                    let turns3 = turns2.drop_first();
                                    let left3 = manager_dialogue::after_replacement::<E>(
                                        rest,
                                        subject.id,
                                    )(turns2[0]);
                                    assert(left2.questions(turns2) == seq![left2->Ask_0]
                                        + left3.questions(turns3));
                                    assert(left2.outcome(turns2) == left3.outcome(turns3));
                                    assert(calls =~= asked + seq![left1->Ask_0, left2->Ask_0]
                                        + left3.questions(turns3));
                                    assert(turns2[0] == turns[count + 1]);
                                    assert(calls[count + 1] == left2->Ask_0);
                                    assert forall|i: int|
                                        0 <= i < left3.questions(turns3).len() && i
                                            < turns3.len() implies #[trigger] left3.questions(
                                        turns3,
                                    )[i] == calls[count + 2 + i] && turns3[i] == turns[count + 2
                                        + i] by {}
                                    match turns2[0].reply {
                                        Reply::Container(Some(replacement)) => {
                                            lemma_row(
                                                rest,
                                                replacement,
                                                turns2[0].state,
                                                turns2[0].config,
                                                turns3,
                                            );
                                        },
                                        _ => {},
                                    }
                                }
                            } else {
                                let same = Container { node: subject.node, id: subject.id, facts };
                                assert forall|i: int|
                                    0 <= i < left2.questions(turns2).len() && i
                                        < turns2.len() implies #[trigger] left2.questions(
                                    turns2,
                                )[i] == calls[count + 1 + i] && turns2[i] == turns[count + 1
                                    + i] by {}
                                lemma_row(rest, same, turns1[0].state, turns1[0].config, turns2);
                            }
                        },
                        _ => {},
                    }
                }
            },
            Some(Err(_)) => {},
            None => {},
        }
    }
}

/// While commands run in a row, nothing is asked for but what the commands ask
/// for, and looks at their subjects: the platform is not updated in between.
pub proof fn law_row_asks_for_commands_only<E>(
    commands: Seq<InvokeCommand>,
    subject: Container,
    state: WmState,
    config: UserConfig,
    turns: Seq<Turn<E>>,
)
    ensures
        ({
            let calls = manager_dialogue::commands_dialogue::<E>(
                commands,
                subject,
                state,
                config,
            ).questions(turns);
            forall|i: int| 0 <= i < calls.len() ==> is_command_or_look(#[trigger] calls[i])
        }),
{
    lemma_row(commands, subject, state, config, turns);
}

/// As long as the window manager is paused, commands none of which toggles the
/// pause ask for nothing.
pub proof fn law_paused_row_asks_for_no_command<E>(
    commands: Seq<InvokeCommand>,
    subject: Container,
    state: WmState,
    config: UserConfig,
    turns: Seq<Turn<E>>,
)
    requires
        stays_paused(state, turns),
        !toggles_pause(commands),
    ensures
        ({
            let calls = manager_dialogue::commands_dialogue::<E>(
                commands,
                subject,
                state,
                config,
            ).questions(turns);
            forall|i: int| 0 <= i < calls.len() ==> !(#[trigger] calls[i] is Command)
        }),
{
    lemma_row(commands, subject, state, config, turns);
}

/// The subject keeps its ID through all commands, though its container may
/// change: commands that succeed end with the ID that they started with.
pub proof fn law_subject_keeps_its_id<E>(
    commands: Seq<InvokeCommand>,
    subject: Container,
    state: WmState,
    config: UserConfig,
    turns: Seq<Turn<E>>,
    id: ContainerId,
)
    requires
        ({
            let row = manager_dialogue::commands_dialogue::<E>(commands, subject, state, config);
            &&& row.outcome(turns) == Some(Ok::<ContainerId, WmError<E>>(id))
            &&& are_answered_by_id(row.questions(turns), turns)
        }),
    ensures
        id == subject.id,
{
    lemma_row(commands, subject, state, config, turns);
}

/// What a row of commands leaves once it has run to its end: the subject of the
/// command that would come next, and the state and the configuration as they
/// then are. Nothing, where it waits for a reply, where a command failed, or
/// where the subject was lost.
pub open spec fn row_leaves<E>(
    commands: Seq<InvokeCommand>,
    subject: Container,
    state: WmState,
    config: UserConfig,
    turns: Seq<Turn<E>>,
) -> Option<(Container, WmState, UserConfig)>
    decreases commands.len(),
{
    if commands.len() == 0 {
        Some((subject, state, config))
    } else {
        let command = command_dialogue::run_command_dialogue::<E>(
            commands[0],
            subject,
            state,
            config,
        );
        let replies = transcript::replies(turns);
        let looked = turns.skip(command.turns(replies) as int);
        let searched = looked.drop_first();
        if !(command.outcome(replies) matches Some(Ok(_))) || looked.len() == 0 {
            None
        } else {
            match looked[0].reply {
                Reply::Facts(facts) if !facts.is_detached => row_leaves(
                    commands.drop_first(),
                    Container { node: subject.node, id: subject.id, facts },
                    looked[0].state,
                    looked[0].config,
                    searched,
                ),
                Reply::Facts(_) if searched.len() > 0 => match searched[0].reply {
                    Reply::Container(Some(replacement)) => row_leaves(
                        commands.drop_first(),
                        replacement,
                        searched[0].state,
                        searched[0].config,
                        searched.drop_first(),
                    ),
                    _ => None,
                },
                _ => None,
            }
        }
    }
}

/// Whether `whole` is `first`, followed by the commands `after` from what the
/// first leaves. Where it leaves nothing, it is all that there is.
pub open spec fn goes_on_with<E>(
    first: ManagerDialogue<E, Result<ContainerId, WmError<E>>>,
    whole: ManagerDialogue<E, Result<ContainerId, WmError<E>>>,
    leaves: Option<(Container, WmState, UserConfig)>,
    after: Seq<InvokeCommand>,
    turns: Seq<Turn<E>>,
) -> bool {
    let count = first.turns(turns);
    match leaves {
        Some((subject, state, config)) => {
            let second = manager_dialogue::commands_dialogue::<E>(after, subject, state, config);
            let rest = turns.skip(count as int);
            &&& first.outcome(turns) == Some(Ok::<ContainerId, WmError<E>>(subject.id))
            &&& whole.questions(turns) == first.questions(turns) + second.questions(rest)
            &&& whole.outcome(turns) == second.outcome(rest)
            &&& whole.turns(turns) == count + second.turns(rest)
        },
        None => {
            &&& whole.questions(turns) == first.questions(turns)
            &&& whole.outcome(turns) == first.outcome(turns)
            &&& whole.turns(turns) == count
        },
    }
}

/// What goes on so does so behind a call.
proof fn lemma_goes_on_behind_call<E>(
    first: ManagerDialogue<E, Result<ContainerId, WmError<E>>>,
    whole: ManagerDialogue<E, Result<ContainerId, WmError<E>>>,
    leaves: Option<(Container, WmState, UserConfig)>,
    after: Seq<InvokeCommand>,
    turns: Seq<Turn<E>>,
)
    requires
        turns.len() > 0,
        first is Ask,
        whole is Ask,
        first->Ask_0 == whole->Ask_0,
        goes_on_with(
            first->Ask_1(turns[0]),
            whole->Ask_1(turns[0]),
            leaves,
            after,
            turns.drop_first(),
        ),
    ensures
        goes_on_with(first, whole, leaves, after, turns),
{
    let left = first->Ask_1(turns[0]);
    let rest = turns.drop_first();
    left.lemma_turns(rest);
    let count = left.turns(rest) as int;
    assert(rest.skip(count) =~= turns.skip(count + 1));
    if let Some((subject, state, config)) = leaves {
        let second = manager_dialogue::commands_dialogue::<E>(after, subject, state, config);
        assert(whole.questions(turns) =~= first.questions(turns) + second.questions(
            rest.skip(count),
        ));
    }
}

/// What goes on so does so behind a command.
proof fn lemma_goes_on_behind_command<E>(
    command: CommandDialogue<E>,
    next: spec_fn(Result<(), WmError<E>>) -> ManagerDialogue<E, Result<ContainerId, WmError<E>>>,
    next_whole: spec_fn(Result<(), WmError<E>>) -> ManagerDialogue<
        E,
        Result<ContainerId, WmError<E>>,
    >,
    leaves: Option<(Container, WmState, UserConfig)>,
    after: Seq<InvokeCommand>,
    turns: Seq<Turn<E>>,
)
    requires
        match command.outcome(transcript::replies(turns)) {
            Some(result) => goes_on_with(
                next(result),
                next_whole(result),
                leaves,
                after,
                turns.skip(command.turns(transcript::replies(turns)) as int),
            ),
            None => leaves is None,
        },
    ensures
        goes_on_with(
            manager_dialogue::lifted(command, next),
            manager_dialogue::lifted(command, next_whole),
            leaves,
            after,
            turns,
        ),
{
    let first = manager_dialogue::lifted(command, next);
    let whole = manager_dialogue::lifted(command, next_whole);
    let replies = transcript::replies(turns);
    transcript::lemma_lifted(command, next, turns);
    transcript::lemma_lifted(command, next_whole, turns);
    command.lemma_turns(replies);
    let count = command.turns(replies) as int;
    let rest = turns.skip(count);
    match command.outcome(replies) {
        Some(result) => {
            next(result).lemma_turns(rest);
            let taken = next(result).turns(rest) as int;
            assert(rest.skip(taken) =~= turns.skip(count + taken));
            if let Some((subject, state, config)) = leaves {
                let second = manager_dialogue::commands_dialogue::<E>(
                    after,
                    subject,
                    state,
                    config,
                );
                assert(whole.questions(turns) =~= first.questions(turns) + second.questions(
                    rest.skip(taken),
                ));
            }
        },
        None => {
            first.lemma_turns(turns);
            whole.lemma_turns(turns);
        },
    }
}

/// A row of two rows is the first, followed by the second from what the first
/// leaves: from its subject, its state and its configuration. Where the first
/// does not run to its end, it is all that there is.
pub proof fn law_row_of_two_rows<E>(
    commands: Seq<InvokeCommand>,
    after: Seq<InvokeCommand>,
    subject: Container,
    state: WmState,
    config: UserConfig,
    turns: Seq<Turn<E>>,
)
    ensures
        goes_on_with(
            manager_dialogue::commands_dialogue::<E>(commands, subject, state, config),
            manager_dialogue::commands_dialogue::<E>(commands + after, subject, state, config),
            row_leaves(commands, subject, state, config, turns),
            after,
            turns,
        ),
    decreases commands.len(),
{
    let first = manager_dialogue::commands_dialogue::<E>(commands, subject, state, config);
    let whole = manager_dialogue::commands_dialogue::<E>(commands + after, subject, state, config);
    let leaves = row_leaves(commands, subject, state, config, turns);
    if commands.len() == 0 {
        assert(commands + after =~= after);
        assert(turns.skip(0) =~= turns);
        assert(first.questions(turns) + whole.questions(turns) =~= whole.questions(turns));
    } else {
        let rest = commands.drop_first();
        assert((commands + after).drop_first() =~= rest + after);
        assert((commands + after)[0] == commands[0]);
        let command = command_dialogue::run_command_dialogue::<E>(
            commands[0],
            subject,
            state,
            config,
        );
        let next = manager_dialogue::after_command::<E>(rest, subject);
        let next_whole = manager_dialogue::after_command::<E>(rest + after, subject);
        let replies = transcript::replies(turns);
        let looked = turns.skip(command.turns(replies) as int);
        if (command.outcome(replies) matches Some(Ok(_))) && looked.len() > 0 {
            let searched = looked.drop_first();
            let look = next(command.outcome(replies)->0);
            let look_whole = next_whole(command.outcome(replies)->0);
            let left = look->Ask_1(looked[0]);
            let left_whole = look_whole->Ask_1(looked[0]);
            match looked[0].reply {
                Reply::Facts(facts) => {
                    if !facts.is_detached {
                        law_row_of_two_rows(
                            rest,
                            after,
                            Container { node: subject.node, id: subject.id, facts },
                            looked[0].state,
                            looked[0].config,
                            searched,
                        );
                    } else if searched.len() > 0 {
                        match searched[0].reply {
                            Reply::Container(Some(replacement)) => {
                                law_row_of_two_rows(
                                    rest,
                                    after,
                                    replacement,
                                    searched[0].state,
                                    searched[0].config,
                                    searched.drop_first(),
                                );
                            },
                            _ => {
                                assert(left->Ask_1(searched[0]) == left_whole->Ask_1(searched[0]));
                            },
                        }
                        lemma_goes_on_behind_call(left, left_whole, leaves, after, searched);
                    }
                },
                _ => {},
            }
            lemma_goes_on_behind_call(look, look_whole, leaves, after, looked);
        }
        lemma_goes_on_behind_command(command, next, next_whole, leaves, after, turns);
    }
}

/// What a row leaves is the state after its last reply.
pub proof fn law_row_leaves_latest_state<E>(
    commands: Seq<InvokeCommand>,
    subject: Container,
    state: WmState,
    config: UserConfig,
    turns: Seq<Turn<E>>,
)
    ensures
        row_leaves(commands, subject, state, config, turns) matches Some((_, now, _)) ==> now
            == transcript::state_after(
            state,
            turns,
            manager_dialogue::commands_dialogue::<E>(commands, subject, state, config).turns(turns),
        ),
    decreases commands.len(),
{
    if commands.len() > 0 {
        let rest = commands.drop_first();
        let command = command_dialogue::run_command_dialogue::<E>(
            commands[0],
            subject,
            state,
            config,
        );
        let next = manager_dialogue::after_command::<E>(rest, subject);
        let replies = transcript::replies(turns);
        transcript::lemma_lifted(command, next, turns);
        command.lemma_turns(replies);
        let looked = turns.skip(command.turns(replies) as int);
        if (command.outcome(replies) matches Some(Ok(_))) && looked.len() > 0 {
            let searched = looked.drop_first();
            let look = next(command.outcome(replies)->0);
            let left = look->Ask_1(looked[0]);
            assert(look.turns(looked) == 1 + left.turns(searched));
            left.lemma_turns(searched);
            match looked[0].reply {
                Reply::Facts(facts) => {
                    if !facts.is_detached {
                        law_row_leaves_latest_state(
                            rest,
                            Container { node: subject.node, id: subject.id, facts },
                            looked[0].state,
                            looked[0].config,
                            searched,
                        );
                    } else if searched.len() > 0 {
                        let found = left->Ask_1(searched[0]);
                        assert(left.turns(searched) == 1 + found.turns(searched.drop_first()));
                        found.lemma_turns(searched.drop_first());
                        match searched[0].reply {
                            Reply::Container(Some(replacement)) => {
                                law_row_leaves_latest_state(
                                    rest,
                                    replacement,
                                    searched[0].state,
                                    searched[0].config,
                                    searched.drop_first(),
                                );
                            },
                            _ => {},
                        }
                    }
                },
                _ => {},
            }
        }
    }
}

/// Whether a row of commands that is part of a longer row begins it: what it
/// asks for comes first, and as long as it runs, or where it fails, that is all.
pub open spec fn begins<E>(
    row: ManagerDialogue<E, Result<ContainerId, WmError<E>>>,
    whole: ManagerDialogue<E, Result<ContainerId, WmError<E>>>,
    turns: Seq<Turn<E>>,
) -> bool {
    &&& row.questions(turns).is_prefix_of(whole.questions(turns))
    &&& !(row.outcome(turns) matches Some(Ok(_))) ==> whole.outcome(turns) == row.outcome(turns)
        && whole.questions(turns) == row.questions(turns)
}

/// Commands run in the order in which they are given: what the first ones ask
/// for comes first, and does not depend on the commands after them.
pub proof fn law_commands_run_in_order<E>(
    commands: Seq<InvokeCommand>,
    after: Seq<InvokeCommand>,
    subject: Container,
    state: WmState,
    config: UserConfig,
    turns: Seq<Turn<E>>,
)
    ensures
        begins(
            manager_dialogue::commands_dialogue::<E>(commands, subject, state, config),
            manager_dialogue::commands_dialogue::<E>(commands + after, subject, state, config),
            turns,
        ),
{
    law_row_of_two_rows(commands, after, subject, state, config, turns);
}

/// A command that fails ends the row, wherever in the row it stands: its error
/// is the row's, and the commands after it ask for nothing. Commands that have
/// failed are not changed by others after them.
pub proof fn law_failed_command_ends_row<E>(
    commands: Seq<InvokeCommand>,
    after: Seq<InvokeCommand>,
    subject: Container,
    state: WmState,
    config: UserConfig,
    turns: Seq<Turn<E>>,
    error: WmError<E>,
)
    requires
        manager_dialogue::commands_dialogue::<E>(commands, subject, state, config).outcome(turns)
            == Some(Err::<ContainerId, WmError<E>>(error)),
    ensures
        ({
            let row = manager_dialogue::commands_dialogue::<E>(commands, subject, state, config);
            let whole = manager_dialogue::commands_dialogue::<E>(
                commands + after,
                subject,
                state,
                config,
            );
            &&& whole.outcome(turns) == Some(Err::<ContainerId, WmError<E>>(error))
            &&& whole.questions(turns) == row.questions(turns)
        }),
{
    law_row_of_two_rows(commands, after, subject, state, config, turns);
}

/// A row fails as its first command does, with nothing asked for but what that
/// command asks for.
pub proof fn law_row_fails_with_its_first_command<E>(
    commands: Seq<InvokeCommand>,
    subject: Container,
    state: WmState,
    config: UserConfig,
    turns: Seq<Turn<E>>,
    error: WmError<E>,
)
    requires
        commands.len() > 0,
        command_dialogue::run_command_dialogue::<E>(commands[0], subject, state, config).outcome(
            transcript::replies(turns),
        ) == Some(Err::<(), WmError<E>>(error)),
    ensures
        ({
            let row = manager_dialogue::commands_dialogue::<E>(commands, subject, state, config);
            let command = command_dialogue::run_command_dialogue::<E>(
                commands[0],
                subject,
                state,
                config,
            );
            &&& row.outcome(turns) == Some(Err::<ContainerId, WmError<E>>(error))
            &&& row.questions(turns) == transcript::as_calls(
                command.questions(transcript::replies(turns)),
            )
        }),
{
    let command = command_dialogue::run_command_dialogue::<E>(commands[0], subject, state, config);
    let next = manager_dialogue::after_command::<E>(commands.drop_first(), subject);
    transcript::lemma_lifted(command, next, turns);
    let asked = transcript::as_calls(command.questions(transcript::replies(turns)));
    assert(asked + Seq::<Call<Seq<char>>>::empty() =~= asked);
}

// ---------------------------------------------------------------------------
// Updates of the platform.

/// Whether the call tells the platform of the queued changes.
pub open spec fn syncs(call: Call<Seq<char>>) -> bool {
    call == Call::<Seq<char>>::Manage(ManagerCall::PlatformSync)
}

/// Whether the call starts the animation timer.
pub open spec fn starts_timer(call: Call<Seq<char>>) -> bool {
    call == Call::<Seq<char>>::Manage(ManagerCall::EnsureTimerRunning)
}

/// Whether the platform is told of the queued changes once at most.
pub open spec fn syncs_at_most_once(calls: Seq<Call<Seq<char>>>) -> bool {
    forall|i: int, j: int|
        0 <= i < calls.len() && 0 <= j < calls.len() && syncs(#[trigger] calls[i]) && syncs(
            #[trigger] calls[j],
        ) ==> i == j
}

/// Whether the platform is never told of queued changes.
pub open spec fn never_syncs(calls: Seq<Call<Seq<char>>>) -> bool {
    forall|i: int| 0 <= i < calls.len() ==> !syncs(#[trigger] calls[i])
}

proof fn lemma_sync_and_wrap_up<E, T>(
    value: T,
    is_due: bool,
    with_timer: bool,
    turns: Seq<Turn<E>>,
)
    ensures
        ({
            let ending = manager_dialogue::sync_and_wrap_up::<E, T>(value, is_due, with_timer);
            let calls = ending.questions(turns);
            &&& calls.len() <= 2
            &&& is_due ==> calls.len() > 0 && syncs(calls[0])
            &&& !is_due ==> never_syncs(calls) && calls.len() <= 1
            &&& calls.len() == 2 ==> starts_timer(calls[1])
            &&& !with_timer ==> calls.len() <= 1
            &&& ending.outcome(turns) matches Some(Ok(result)) ==> {
                &&& result == value
                &&& with_timer ==> calls.len() > 0 && starts_timer(calls.last())
                &&& with_timer && is_due ==> calls.len() == 2
            }
        }),
{
    reveal_with_fuel(Dialogue::questions, 3);
    reveal_with_fuel(Dialogue::outcome, 3);
}

/// Whether the calls bring the platform up to date as they should. `state` is
/// the state before the first call.
pub open spec fn keeps_platform_current<E, T>(
    operation: ManagerDialogue<E, Result<T, WmError<E>>>,
    state: WmState,
    turns: Seq<Turn<E>>,
) -> bool {
    let calls = operation.questions(turns);
    // The platform is told of queued changes once at most, and only where there
    // are any.
    &&& syncs_at_most_once(calls)
    &&& forall|i: int|
        0 <= i < calls.len() && syncs(#[trigger] calls[i]) ==> transcript::state_after(
            state,
            turns,
            i as nat,
        ).has_pending_changes
    // An operation that succeeds starts the animation timer last, and has left no
    // queued changes unsaid.
    &&& operation.outcome(turns) matches Some(Ok(_)) ==> {
        &&& calls.len() > 0 && starts_timer(calls.last())
        &&& never_syncs(calls) ==> !transcript::state_after(
            state,
            turns,
            (calls.len() - 1) as nat,
        ).has_pending_changes
    }
}

proof fn lemma_run_and_sync<E>(
    commands: Seq<InvokeCommand>,
    subject: Container,
    state: WmState,
    config: UserConfig,
    turns: Seq<Turn<E>>,
)
    ensures
        keeps_platform_current(
            manager_dialogue::run_and_sync::<E>(commands, subject, state, config),
            state,
            turns,
        ),
{
    let row = manager_dialogue::commands_dialogue::<E>(commands, subject, state, config);
    let whole = manager_dialogue::run_and_sync::<E>(commands, subject, state, config);
    lemma_row(commands, subject, state, config, turns);
    row.lemma_turns(turns);
    transcript::lemma_followed(row, state, manager_dialogue::after_commands::<E>(), turns);
    let count = row.turns(turns);
    let asked = row.questions(turns);
    assert(never_syncs(asked));
    match row.outcome(turns) {
        Some(Ok(id)) => {
            let now = transcript::state_after(state, turns, count);
            let rest = turns.skip(count as int);
            lemma_sync_and_wrap_up::<E, ContainerId>(id, now.has_pending_changes, true, rest);
            let ending = manager_dialogue::sync_and_wrap_up::<E, ContainerId>(
                id,
                now.has_pending_changes,
                true,
            );
            assert(whole.questions(turns) == asked + ending.questions(rest));
            if now.has_pending_changes {
                assert(whole.questions(turns)[count as int] == ending.questions(rest)[0]);
                assert(syncs(whole.questions(turns)[count as int]));
            }
        },
        Some(Err(error)) => {
            let ended: ManagerDialogue<E, Result<ContainerId, WmError<E>>> = Dialogue::Return(
                Err(error),
            );
            assert(ended.questions(turns.skip(count as int)) =~= Seq::empty());
        },
        None => {},
    }
}

/// Processing commands tells the platform once at most, only of changes that
/// are queued, and of all of them where it succeeds. It then starts the
/// animation timer, so that animations that a command began do run.
pub proof fn law_commands_keep_platform_current<E>(
    commands: Seq<InvokeCommand>,
    subject_id: Option<ContainerId>,
    state: WmState,
    config: UserConfig,
    turns: Seq<Turn<E>>,
)
    ensures
        keeps_platform_current(
            manager_dialogue::process_commands_dialogue::<E>(commands, subject_id, state, config),
            state,
            turns,
        ),
{
    let whole = manager_dialogue::process_commands_dialogue::<E>(
        commands,
        subject_id,
        state,
        config,
    );
    match subject_id {
        Some(id) => {
            if turns.len() > 0 {
                let left = manager_dialogue::after_subject::<E>(commands, id)(turns[0]);
                let rest = turns.drop_first();
                assert(whole.questions(turns) == seq![whole->Ask_0] + left.questions(rest));
                assert(whole.outcome(turns) == left.outcome(rest));
                left.lemma_turns(rest);
                match turns[0].reply {
                    Reply::Container(Some(subject)) => {
                        lemma_run_and_sync(
                            commands,
                            subject,
                            turns[0].state,
                            turns[0].config,
                            rest,
                        );
                        lemma_shift(left, whole, turns[0].state, state, turns);
                    },
                    _ => {
                        assert(left.questions(rest) =~= Seq::empty());
                    },
                }
            }
        },
        None => match state.focused_container {
            Some(subject) => {
                lemma_run_and_sync(commands, subject, state, config, turns);
            },
            None => {},
        },
    }
}

/// What holds of an operation holds of it behind a call that is no update of
/// the platform.
proof fn lemma_shift<E, T>(
    left: ManagerDialogue<E, Result<T, WmError<E>>>,
    whole: ManagerDialogue<E, Result<T, WmError<E>>>,
    left_state: WmState,
    state: WmState,
    turns: Seq<Turn<E>>,
)
    requires
        turns.len() > 0,
        whole is Ask,
        !syncs(whole->Ask_0),
        left == whole->Ask_1(turns[0]),
        left_state == turns[0].state,
        keeps_platform_current(left, left_state, turns.drop_first()),
    ensures
        keeps_platform_current(whole, state, turns),
{
    let rest = turns.drop_first();
    let calls = whole.questions(turns);
    let asked = left.questions(rest);
    left.lemma_turns(rest);
    assert(calls == seq![whole->Ask_0] + asked);
    assert forall|i: int| 0 <= i < calls.len() && syncs(#[trigger] calls[i]) implies i > 0 && syncs(
        asked[i - 1],
    ) && transcript::state_after(state, turns, i as nat).has_pending_changes by {
        assert(transcript::state_after(left_state, rest, (i - 1) as nat)
            == transcript::state_after(state, turns, i as nat));
    }
    if whole.outcome(turns) matches Some(Ok(_)) {
        assert(left.outcome(rest) == whole.outcome(turns));
        assert(calls.last() == asked.last());
        if never_syncs(calls) {
            assert forall|i: int| 0 <= i < asked.len() implies !syncs(#[trigger] asked[i]) by {
                assert(asked[i] == calls[i + 1]);
            }
            assert(transcript::state_after(left_state, rest, (asked.len() - 1) as nat)
                == transcript::state_after(state, turns, (calls.len() - 1) as nat));
        }
    }
}

// ---------------------------------------------------------------------------
// Events.

/// The first active keybinding that the keys are bound to is the one that
/// counts.
pub proof fn law_first_keybinding_counts(
    configs: Seq<KeybindingConfig>,
    keys: Seq<u16>,
    first: int,
)
    requires
        0 <= first < configs.len(),
        manager_dialogue::is_bound(configs[first], keys),
        forall|i: int| 0 <= i < first ==> !manager_dialogue::is_bound(#[trigger] configs[i], keys),
    ensures
        manager_dialogue::bound_commands(configs, keys) == Some(configs[first].commands@),
    decreases configs.len(),
{
    if first > 0 {
        let rest = configs.drop_first();
        assert forall|i: int| 0 <= i < first - 1 implies !manager_dialogue::is_bound(
            #[trigger] rest[i],
            keys,
        ) by {
            assert(rest[i] == configs[i + 1]);
        }
        law_first_keybinding_counts(rest, keys, first - 1);
    }
}

/// Keys that no active keybinding is for do nothing.
pub proof fn law_unbound_keys_do_nothing<E>(
    keybinding: Keybinding,
    state: WmState,
    configs: Vec<KeybindingConfig>,
    turns: Seq<Turn<E>>,
)
    requires
        turns.len() > 0,
        turns[0].reply == Reply::<E>::Keybindings(configs),
        forall|i: int|
            0 <= i < configs@.len() ==> !manager_dialogue::is_bound(
                #[trigger] configs@[i],
                keybinding.keys@,
            ),
    ensures
        ({
            let event = manager_dialogue::process_event_dialogue::<E>(
                PlatformEvent::Keybinding(keybinding),
                state,
            );
            &&& event.questions(turns).len() == 1
            &&& event.outcome(turns) == Some(Ok::<(), WmError<E>>(()))
        }),
{
    lemma_unbound(configs@, keybinding.keys@);
    reveal_with_fuel(Dialogue::questions, 2);
    reveal_with_fuel(Dialogue::outcome, 2);
}

proof fn lemma_unbound(configs: Seq<KeybindingConfig>, keys: Seq<u16>)
    requires
        forall|i: int|
            0 <= i < configs.len() ==> !manager_dialogue::is_bound(#[trigger] configs[i], keys),
    ensures
        manager_dialogue::bound_commands(configs, keys) is None,
    decreases configs.len(),
{
    if configs.len() > 0 {
        let rest = configs.drop_first();
        assert forall|i: int| 0 <= i < rest.len() implies !manager_dialogue::is_bound(
            #[trigger] rest[i],
            keys,
        ) by {
            assert(rest[i] == configs[i + 1]);
        }
        lemma_unbound(rest, keys);
    }
}

/// An event that is no keybinding goes to its handler. The platform is then
/// told of the changes that are queued, unless the window manager is paused;
/// where all succeeds, the animation timer is started last.
pub proof fn law_handled_event_keeps_platform_current<E>(
    event: PlatformEvent,
    state: WmState,
    turns: Seq<Turn<E>>,
)
    requires
        !(event is Keybinding),
    ensures
        ({
            let operation = manager_dialogue::process_event_dialogue::<E>(event, state);
            let calls = operation.questions(turns);
            &&& manager_dialogue::handler_of(event) is Some
            &&& calls[0] == Call::<Seq<char>>::Manage(
                ManagerCall::Handle(manager_dialogue::handler_of(event)->0),
            )
            &&& syncs_at_most_once(calls)
            &&& turns.len() > 0 && turns[0].state.is_paused ==> never_syncs(calls)
            &&& turns.len() > 0 && !turns[0].state.has_pending_changes ==> never_syncs(calls)
            &&& operation.outcome(turns) == Some(Ok::<(), WmError<E>>(())) ==> {
                &&& starts_timer(calls.last())
                &&& !turns[0].state.is_paused && turns[0].state.has_pending_changes ==> syncs(
                    calls[1],
                )
            }
        }),
{
    let operation = manager_dialogue::process_event_dialogue::<E>(event, state);
    if turns.len() > 0 {
        let left = manager_dialogue::after_handler::<E>(true)(turns[0]);
        let rest = turns.drop_first();
        lemma_sync_and_wrap_up::<E, ()>(
            (),
            !turns[0].state.is_paused && turns[0].state.has_pending_changes,
            true,
            rest,
        );
        assert(operation.questions(turns) == seq![operation->Ask_0] + left.questions(rest));
        assert(operation.outcome(turns) == left.outcome(rest));
        if !(turns[0].reply is Done) {
            assert(left.questions(rest) =~= Seq::empty());
        }
    }
}

/// No event makes the window manager update the platform twice: the commands
/// of a keybinding do that themselves.
pub proof fn law_event_syncs_at_most_once<E>(
    event: PlatformEvent,
    state: WmState,
    turns: Seq<Turn<E>>,
)
    ensures
        syncs_at_most_once(
            manager_dialogue::process_event_dialogue::<E>(event, state).questions(turns),
        ),
{
    let operation = manager_dialogue::process_event_dialogue::<E>(event, state);
    match event {
        PlatformEvent::Keybinding(keybinding) => {
            if turns.len() > 0 {
                let left = manager_dialogue::after_keybindings::<E>(keybinding.keys@)(turns[0]);
                let rest = turns.drop_first();
                assert(operation.questions(turns) == seq![operation->Ask_0] + left.questions(rest));
                match turns[0].reply {
                    Reply::Keybindings(configs) => match manager_dialogue::bound_commands(
                        configs@,
                        keybinding.keys@,
                    ) {
                        Some(commands) => {
                            let processing = manager_dialogue::process_commands_dialogue::<E>(
                                commands,
                                None,
                                turns[0].state,
                                turns[0].config,
                            );
                            law_commands_keep_platform_current(
                                commands,
                                None,
                                turns[0].state,
                                turns[0].config,
                                rest,
                            );
                            transcript::lemma_followed(
                                processing,
                                turns[0].state,
                                manager_dialogue::without_subject::<E>(),
                                rest,
                            );
                            assert(left.questions(rest) =~= processing.questions(rest));
                        },
                        None => {
                            assert(left.questions(rest) =~= Seq::empty());
                        },
                    },
                    _ => {
                        assert(left.questions(rest) =~= Seq::empty());
                    },
                }
            }
        },
        _ => {
            law_handled_event_keeps_platform_current(event, state, turns);
        },
    }
}

/// A drag by grab-and-move goes as the native interactive move that it stands
/// for, whatever the replies: it asks for the same calls and ends the same. Only
/// where all has succeeded does the native move ask for one call more, for the
/// start of the animation timer, and ends as that does.
pub proof fn law_drag_goes_as_native_move<E>(
    native_window: u64,
    is_start: bool,
    state: WmState,
    turns: Seq<Turn<E>>,
)
    ensures
        ({
            let native_move = PlatformEvent::Window(
                WindowEvent::MovedOrResized {
                    window: native_window,
                    is_interactive_start: is_start,
                    is_interactive_end: !is_start,
                },
            );
            let drag = manager_dialogue::process_window_drag_dialogue::<E>(native_window, is_start);
            let native = manager_dialogue::process_event_dialogue::<E>(native_move, state);
            if drag.outcome(turns) matches Some(Ok(_)) {
                &&& native.questions(turns) == drag.questions(turns).push(
                    Call::Manage(ManagerCall::EnsureTimerRunning),
                )
                &&& native.outcome(turns) == manager_dialogue::wrap_up::<E, ()>((), true).outcome(
                    turns.skip(drag.turns(turns) as int),
                )
            } else {
                &&& native.questions(turns) == drag.questions(turns)
                &&& native.outcome(turns) == drag.outcome(turns)
            }
        }),
{
    let native_move = PlatformEvent::Window(
        WindowEvent::MovedOrResized {
            window: native_window,
            is_interactive_start: is_start,
            is_interactive_end: !is_start,
        },
    );
    let drag = manager_dialogue::process_window_drag_dialogue::<E>(native_window, is_start);
    let native = manager_dialogue::process_event_dialogue::<E>(native_move, state);
    if turns.len() > 0 {
        let turns1 = turns.drop_first();
        let drag1 = manager_dialogue::after_handler::<E>(false)(turns[0]);
        let native1 = manager_dialogue::after_handler::<E>(true)(turns[0]);
        assert(drag.questions(turns) == seq![drag->Ask_0] + drag1.questions(turns1));
        assert(native.questions(turns) == seq![drag->Ask_0] + native1.questions(turns1));
        assert(drag.outcome(turns) == drag1.outcome(turns1));
        assert(native.outcome(turns) == native1.outcome(turns1));
        assert(drag.turns(turns) == 1 + drag1.turns(turns1));
        assert(turns.skip(1) =~= turns1);
        let timer = manager_dialogue::wrap_up::<E, ()>((), true);
        if drag1 is Ask && turns1.len() > 0 {
            let turns2 = turns1.drop_first();
            let drag2 = manager_dialogue::after_sync::<E, ()>((), false)(turns1[0]);
            let native2 = manager_dialogue::after_sync::<E, ()>((), true)(turns1[0]);
            assert(drag1.questions(turns1) == seq![drag1->Ask_0] + drag2.questions(turns2));
            assert(native1.questions(turns1) == seq![drag1->Ask_0] + native2.questions(turns2));
            assert(drag1.outcome(turns1) == drag2.outcome(turns2));
            assert(native1.outcome(turns1) == native2.outcome(turns2));
            assert(drag1.turns(turns1) == 1 + drag2.turns(turns2));
            assert(turns.skip(2) =~= turns2);
            lemma_timer_asks(turns2);
            assert(drag2 is Return);
            assert(drag2.questions(turns2) =~= Seq::empty());
            if turns1[0].reply is Done {
                assert(native2 == timer);
                assert(native.questions(turns) =~= drag.questions(turns).push(
                    Call::Manage(ManagerCall::EnsureTimerRunning),
                ));
            } else {
                assert(native2 == drag2);
            }
        } else if drag1 is Return {
            lemma_timer_asks(turns1);
            assert(drag1.questions(turns1) =~= Seq::empty());
            if turns[0].reply is Done {
                assert(native1 == timer);
                assert(native.questions(turns) =~= drag.questions(turns).push(
                    Call::Manage(ManagerCall::EnsureTimerRunning),
                ));
            } else {
                assert(native1 == drag1);
            }
        }
    }
}

/// The start of the animation timer, as the last thing, is one call.
proof fn lemma_timer_asks<E>(turns: Seq<Turn<E>>)
    ensures
        manager_dialogue::wrap_up::<E, ()>((), true).questions(turns) == seq![
            Call::<Seq<char>>::Manage(ManagerCall::EnsureTimerRunning),
        ],
{
    reveal_with_fuel(Dialogue::questions, 2);
}

/// A drag tells the platform of queued changes once at most, and never while
/// the window manager is paused.
pub proof fn law_drag_keeps_platform_current<E>(
    native_window: u64,
    is_start: bool,
    turns: Seq<Turn<E>>,
)
    ensures
        ({
            let operation = manager_dialogue::process_window_drag_dialogue::<E>(
                native_window,
                is_start,
            );
            let calls = operation.questions(turns);
            &&& syncs_at_most_once(calls)
            &&& turns.len() > 0 && turns[0].state.is_paused ==> never_syncs(calls)
            &&& operation.outcome(turns) == Some(Ok::<(), WmError<E>>(()))
                && !turns[0].state.is_paused && turns[0].state.has_pending_changes ==> syncs(
                calls[1],
            )
        }),
{
    let operation = manager_dialogue::process_window_drag_dialogue::<E>(native_window, is_start);
    if turns.len() > 0 {
        let left = manager_dialogue::after_handler::<E>(false)(turns[0]);
        let rest = turns.drop_first();
        lemma_sync_and_wrap_up::<E, ()>(
            (),
            !turns[0].state.is_paused && turns[0].state.has_pending_changes,
            false,
            rest,
        );
        assert(operation.questions(turns) == seq![operation->Ask_0] + left.questions(rest));
        assert(operation.outcome(turns) == left.outcome(rest));
        if !(turns[0].reply is Done) {
            assert(left.questions(rest) =~= Seq::empty());
        }
    }
}

/// The tiling direction is only ever set of a tiling window, along the longer
/// side of the rectangle that it has.
pub proof fn law_tiling_direction_follows_shape<E>(
    event: WmEvent,
    config: UserConfig,
    turns: Seq<Turn<E>>,
)
    ensures
        ({
            let calls = manager_dialogue::process_wm_event_dialogue::<E>(event, config).questions(
                turns,
            );
            &&& calls.len() <= 3
            &&& calls.len() == 3 ==> {
                &&& config.auto_set_tiling_direction
                &&& match (turns[0].reply, turns[1].reply, calls[2]) {
                    (
                        Reply::Container(Some(window)),
                        Reply::Rect(rect),
                        Call::Command(
                            CommandCall::Act(Action::SetTilingDirection { container, direction }),
                        ),
                    ) => manager_dialogue::is_tiling_window(window) && container == window.node
                        && auto_tiling::along_longer_side(rect.width as int, rect.height as int)
                        == Some(direction),
                    _ => false,
                }
            }
        }),
{
    reveal_with_fuel(Dialogue::questions, 4);
}

// ---------------------------------------------------------------------------
// Exiting.

/// The calls that an exiting window manager asks for when these turns are
/// taken, the one that is left without a reply among them.
pub open spec fn cleanup_calls<E>(next: CleanupNext<E>, turns: Seq<Turn<E>>) -> Seq<
    CleanupCall<Seq<char>, E>,
>
    decreases turns.len(),
{
    match next {
        Some((call, awaited)) => if turns.len() == 0 {
            seq![call]
        } else {
            seq![call] + cleanup_calls(wm::cleanup_next(awaited, turns[0]), turns.drop_first())
        },
        None => Seq::empty(),
    }
}

/// Whether the exit has ended when these turns are taken.
pub open spec fn cleanup_ends<E>(next: CleanupNext<E>, turns: Seq<Turn<E>>) -> bool
    decreases turns.len(),
{
    match next {
        Some((call, awaited)) => if turns.len() == 0 {
            false
        } else {
            cleanup_ends(wm::cleanup_next(awaited, turns[0]), turns.drop_first())
        },
        None => true,
    }
}

/// The call for the next event in the queue.
pub open spec fn takes_event<E>(call: CleanupCall<Seq<char>, E>) -> bool {
    call == CleanupCall::<Seq<char>, E>::Make(Call::Manage(ManagerCall::NextEvent))
}

/// The call that publishes an event.
pub open spec fn publishes<E>(call: CleanupCall<Seq<char>, E>) -> bool {
    match call {
        CleanupCall::Make(Call::Manage(ManagerCall::PublishEvent { .. })) => true,
        _ => false,
    }
}

/// The warning that the shutdown commands failed.
pub open spec fn warns<E>(call: CleanupCall<Seq<char>, E>) -> bool {
    call is WarnOfShutdown
}

/// Whether an event that was taken by the `i`th call is published by the next.
pub open spec fn is_published<E>(
    calls: Seq<CleanupCall<Seq<char>, E>>,
    turns: Seq<Turn<E>>,
    i: int,
) -> bool {
    takes_event(calls[i]) ==> (turns[i].reply matches Reply::Event(Some(ticket)) ==> i + 1
        < calls.len() && calls[i + 1] == CleanupCall::<Seq<char>, E>::Make(
        Call::Manage(ManagerCall::PublishEvent { ticket }),
    ))
}

/// Whether an event that is published by the `i`th call was taken by the call
/// before.
pub open spec fn was_taken<E>(
    calls: Seq<CleanupCall<Seq<char>, E>>,
    turns: Seq<Turn<E>>,
    i: int,
) -> bool {
    publishes(calls[i]) ==> i > 0 && takes_event(calls[i - 1]) && turns[i - 1].reply == Reply::<
        E,
    >::Event(Some(calls[i]->Make_0->Manage_0->PublishEvent_ticket))
}

/// Whether every event that is taken is published right away, and no other is.
pub open spec fn publishes_every_event<E>(
    calls: Seq<CleanupCall<Seq<char>, E>>,
    turns: Seq<Turn<E>>,
) -> bool {
    &&& forall|i: int|
        0 <= i < calls.len() && i < turns.len() ==> #[trigger] is_published(calls, turns, i)
    &&& forall|i: int| 0 <= i < calls.len() ==> #[trigger] was_taken(calls, turns, i)
}

proof fn lemma_draining<E>(turns: Seq<Turn<E>>)
    ensures
        ({
            let calls = cleanup_calls(wm::take_event::<E>(), turns);
            &&& calls.len() > 0 && calls.len() <= turns.len() + 1
            &&& takes_event(calls[0])
            &&& forall|i: int|
                0 <= i < calls.len() ==> takes_event(#[trigger] calls[i]) || publishes(calls[i])
            &&& publishes_every_event(calls, turns)
            &&& cleanup_ends(wm::take_event::<E>(), turns) ==> takes_event(calls.last())
                && calls.len() <= turns.len() && !(turns[calls.len() - 1].reply matches
                Reply::Event(Some(_)))
        }),
    decreases turns.len(),
{
    let take = CleanupCall::<Seq<char>, E>::Make(Call::Manage(ManagerCall::NextEvent));
    let calls = cleanup_calls(wm::take_event::<E>(), turns);
    if turns.len() > 0 {
        let turns1 = turns.drop_first();
        let next1 = wm::cleanup_next(Cleanup::Taking, turns[0]);
        let calls1 = cleanup_calls(next1, turns1);
        assert(calls == seq![take] + calls1);
        let ends = cleanup_ends(wm::take_event::<E>(), turns);
        assert(ends == cleanup_ends(next1, turns1));
        if next1 is Some && turns1.len() > 0 {
            let turns2 = turns1.drop_first();
            lemma_draining(turns2);
            let calls2 = cleanup_calls(wm::take_event::<E>(), turns2);
            assert(calls1 == seq![(next1->0).0] + calls2);
            assert(ends == cleanup_ends(wm::take_event::<E>(), turns2));
            assert(calls =~= seq![take, (next1->0).0] + calls2);
            assert forall|i: int|
                0 <= i < calls.len() && i < turns.len() implies #[trigger] is_published(
                calls,
                turns,
                i,
            ) by {
                if i >= 2 {
                    assert(is_published(calls2, turns2, i - 2));
                    assert(calls[i] == calls2[i - 2]);
                    assert(turns[i] == turns2[i - 2]);
                }
            }
            assert forall|i: int| 0 <= i < calls.len() implies #[trigger] was_taken(
                calls,
                turns,
                i,
            ) by {
                if i >= 2 {
                    assert(was_taken(calls2, turns2, i - 2));
                    assert(calls[i] == calls2[i - 2]);
                    if i >= 3 {
                        assert(turns[i - 1] == turns2[i - 3]);
                    }
                }
            }
            if ends {
                assert(calls.last() == calls2.last());
                assert(turns[calls.len() - 1] == turns2[calls2.len() - 1]);
            }
        } else if next1 is Some {
            assert(calls =~= seq![take, (next1->0).0]);
        } else {
            assert(calls =~= seq![take]);
        }
    }
}

/// Whether the call belongs to the processing of commands.
pub open spec fn is_of_processing(call: Call<Seq<char>>) -> bool {
    is_command_or_look(call) || syncs(call) || starts_timer(call)
}

proof fn lemma_processing_calls<E>(
    commands: Seq<InvokeCommand>,
    state: WmState,
    config: UserConfig,
    turns: Seq<Turn<E>>,
)
    ensures
        ({
            let calls = manager_dialogue::process_commands_dialogue::<E>(
                commands,
                None,
                state,
                config,
            ).questions(turns);
            forall|i: int| 0 <= i < calls.len() ==> is_of_processing(#[trigger] calls[i])
        }),
{
    match state.focused_container {
        Some(subject) => {
            let row = manager_dialogue::commands_dialogue::<E>(commands, subject, state, config);
            lemma_row(commands, subject, state, config, turns);
            row.lemma_turns(turns);
            transcript::lemma_followed(row, state, manager_dialogue::after_commands::<E>(), turns);
            let rest = turns.skip(row.turns(turns) as int);
            match row.outcome(turns) {
                Some(Ok(id)) => {
                    let now = transcript::state_after(state, turns, row.turns(turns));
                    let ending = manager_dialogue::sync_and_wrap_up::<E, ContainerId>(
                        id,
                        now.has_pending_changes,
                        true,
                    );
                    reveal_with_fuel(Dialogue::questions, 3);
                    assert(forall|i: int|
                        0 <= i < ending.questions(rest).len() ==> is_of_processing(
                            #[trigger] ending.questions(rest)[i],
                        ));
                },
                _ => {},
            }
        },
        None => {},
    }
}

/// The shutdown's calls, as calls of the exit.
pub open spec fn as_cleanup_calls<E>(calls: Seq<Call<Seq<char>>>) -> Seq<
    CleanupCall<Seq<char>, E>,
> {
    calls.map_values(|call: Call<Seq<char>>| CleanupCall::Make(call))
}

/// An exit goes on as its shutdown does, and then from the shutdown's result.
pub(crate) proof fn lemma_shut_down<E>(
    shutdown: ManagerDialogue<E, Result<ContainerId, WmError<E>>>,
    turns: Seq<Turn<E>>,
)
    ensures
        ({
            let rest = turns.skip(shutdown.turns(turns) as int);
            let asked = as_cleanup_calls::<E>(shutdown.questions(turns));
            match shutdown.outcome(turns) {
                Some(result) => {
                    &&& cleanup_calls(wm::shut_down(shutdown), turns) == asked + cleanup_calls(
                        wm::after_shutdown(result),
                        rest,
                    )
                    &&& cleanup_ends(wm::shut_down(shutdown), turns) == cleanup_ends(
                        wm::after_shutdown(result),
                        rest,
                    )
                },
                None => {
                    &&& cleanup_calls(wm::shut_down(shutdown), turns) == asked
                    &&& !cleanup_ends(wm::shut_down(shutdown), turns)
                },
            }
        }),
    decreases turns.len(),
{
    let asked = as_cleanup_calls::<E>(shutdown.questions(turns));
    match shutdown {
        Dialogue::Return(result) => {
            assert(turns.skip(0) =~= turns);
            let drained = cleanup_calls(wm::after_shutdown(result), turns);
            assert(asked + drained =~= drained);
        },
        Dialogue::Ask(call, resumption) => {
            let made = CleanupCall::<Seq<char>, E>::Make(call);
            if turns.len() == 0 {
                assert(asked =~= seq![made]);
            } else {
                let left = resumption(turns[0]);
                let turns1 = turns.drop_first();
                lemma_shut_down(left, turns1);
                left.lemma_turns(turns1);
                let count = left.turns(turns1) as int;
                assert(turns1.skip(count) =~= turns.skip(count + 1));
                let asked1 = as_cleanup_calls::<E>(left.questions(turns1));
                assert(asked =~= seq![made] + asked1);
                match left.outcome(turns1) {
                    Some(result) => {
                        let drained = cleanup_calls(
                            wm::after_shutdown(result),
                            turns1.skip(count),
                        );
                        assert(seq![made] + (asked1 + drained) =~= asked + drained);
                    },
                    None => {},
                }
            }
        },
    }
}

/// Calls that neither take nor publish an event change nothing of how the
/// events after them are published.
proof fn lemma_published_behind<E>(
    head: Seq<CleanupCall<Seq<char>, E>>,
    calls: Seq<CleanupCall<Seq<char>, E>>,
    turns: Seq<Turn<E>>,
)
    requires
        head.len() + calls.len() <= turns.len() + 1,
        head.len() <= turns.len(),
        forall|i: int|
            0 <= i < head.len() ==> !takes_event(#[trigger] head[i]) && !publishes(head[i]),
        publishes_every_event(calls, turns.skip(head.len() as int)),
    ensures
        publishes_every_event(head + calls, turns),
{
    let whole = head + calls;
    let count = head.len() as int;
    let rest = turns.skip(count);
    assert forall|i: int| 0 <= i < whole.len() && i < turns.len() implies #[trigger] is_published(
        whole,
        turns,
        i,
    ) by {
        if i < count {
            assert(whole[i] == head[i]);
        } else {
            assert(is_published(calls, rest, i - count));
            assert(whole[i] == calls[i - count]);
            assert(turns[i] == rest[i - count]);
        }
    }
    assert forall|i: int| 0 <= i < whole.len() implies #[trigger] was_taken(whole, turns, i) by {
        if i < count {
            assert(whole[i] == head[i]);
        } else {
            assert(was_taken(calls, rest, i - count));
            assert(whole[i] == calls[i - count]);
            if i > count {
                assert(turns[i - 1] == rest[i - count - 1]);
            }
        }
    }
}

/// What is asked for once the shutdown commands have ended.
pub(crate) proof fn lemma_after_shutdown<E>(
    result: Result<ContainerId, WmError<E>>,
    turns: Seq<Turn<E>>,
)
    ensures
        ({
            let next = wm::after_shutdown(result);
            let calls = cleanup_calls(next, turns);
            &&& 0 < calls.len() <= turns.len() + 1
            &&& match result {
                Ok(_) => takes_event(calls[0]),
                Err(error) => {
                    &&& calls[0] == CleanupCall::<Seq<char>, E>::WarnOfShutdown(error)
                    &&& turns.len() > 0 ==> calls.len() > 1 && takes_event(calls[1])
                },
            }
            &&& forall|i: int|
                1 <= i < calls.len() ==> takes_event(#[trigger] calls[i]) || publishes(calls[i])
            &&& publishes_every_event(calls, turns)
            &&& cleanup_ends(next, turns) ==> takes_event(calls.last()) && calls.len()
                <= turns.len() && !(turns[calls.len() - 1].reply matches Reply::Event(Some(_)))
        }),
{
    let next = wm::after_shutdown(result);
    let calls = cleanup_calls(next, turns);
    match result {
        Ok(_) => {
            lemma_draining(turns);
        },
        Err(error) => {
            let warning = CleanupCall::<Seq<char>, E>::WarnOfShutdown(error);
            if turns.len() == 0 {
                assert(calls =~= seq![warning]);
            } else {
                let turns1 = turns.drop_first();
                lemma_draining(turns1);
                let drained = cleanup_calls(wm::take_event::<E>(), turns1);
                assert(calls == seq![warning] + drained);
                assert(turns.skip(1) =~= turns1);
                lemma_published_behind(seq![warning], drained, turns);
                if cleanup_ends(next, turns) {
                    assert(calls.last() == drained.last());
                    assert(turns[calls.len() - 1] == turns1[drained.len() - 1]);
                }
            }
        },
    }
}

/// What the shutdown asks for: its announcement, the end of the pause, and then
/// what the processing of its commands asks for.
proof fn lemma_shutdown_calls<E>(commands: Seq<InvokeCommand>, turns: Seq<Turn<E>>)
    ensures
        ({
            let calls = manager_dialogue::shutdown_dialogue::<E>(commands).questions(turns);
            &&& calls.len() > 0
            &&& calls[0] == Call::<Seq<char>>::Manage(ManagerCall::EmitApplicationExiting)
            &&& turns.len() > 0 ==> calls.len() > 1 && calls[1] == Call::<Seq<char>>::Manage(
                ManagerCall::Unpause,
            )
            &&& forall|i: int| 2 <= i < calls.len() ==> is_of_processing(#[trigger] calls[i])
        }),
{
    let shutdown = manager_dialogue::shutdown_dialogue::<E>(commands);
    let calls = shutdown.questions(turns);
    if turns.len() > 0 {
        let turns1 = turns.drop_first();
        let left1 = manager_dialogue::after_exiting::<E>(commands)(turns[0]);
        assert(calls == seq![shutdown->Ask_0] + left1.questions(turns1));
        if turns1.len() > 0 {
            let turns2 = turns1.drop_first();
            let left2 = manager_dialogue::after_unpause::<E>(commands)(turns1[0]);
            assert(left1.questions(turns1) == seq![left1->Ask_0] + left2.questions(turns2));
            lemma_processing_calls(commands, turns1[0].state, turns1[0].config, turns2);
            assert(calls =~= seq![shutdown->Ask_0, left1->Ask_0] + left2.questions(turns2));
        }
    }
}

/// An exiting window manager first says so and then ends its pause, before any
/// shutdown command runs.
pub proof fn law_exit_ends_the_pause_first<E>(
    shutdown_commands: Seq<InvokeCommand>,
    turns: Seq<Turn<E>>,
)
    requires
        turns.len() > 0,
    ensures
        ({
            let calls = cleanup_calls(
                wm::shut_down(manager_dialogue::shutdown_dialogue::<E>(shutdown_commands)),
                turns,
            );
            &&& calls.len() >= 2
            &&& calls[0] == CleanupCall::<Seq<char>, E>::Make(
                Call::Manage(ManagerCall::EmitApplicationExiting),
            )
            &&& calls[1] == CleanupCall::<Seq<char>, E>::Make(Call::Manage(ManagerCall::Unpause))
        }),
{
    let shutdown = manager_dialogue::shutdown_dialogue::<E>(shutdown_commands);
    lemma_shutdown_calls(shutdown_commands, turns);
    lemma_shut_down(shutdown, turns);
}

/// Where the shutdown commands fail, an exiting window manager warns of their
/// error as soon as they have ended, once, and goes on to the events all the
/// same. Where they do not fail, it never warns.
pub proof fn law_exit_warns_of_failed_shutdown<E>(
    shutdown_commands: Seq<InvokeCommand>,
    turns: Seq<Turn<E>>,
)
    ensures
        ({
            let shutdown = manager_dialogue::shutdown_dialogue::<E>(shutdown_commands);
            let calls = cleanup_calls(wm::shut_down(shutdown), turns);
            let count = shutdown.turns(turns) as int;
            &&& forall|i: int|
                0 <= i < calls.len() && warns(#[trigger] calls[i]) ==> i == count
                    && shutdown.outcome(turns) == Some(
                    Err::<ContainerId, WmError<E>>(calls[i]->WarnOfShutdown_0),
                )
            &&& match shutdown.outcome(turns) {
                Some(Ok(_)) => calls.len() > count && takes_event(calls[count]),
                Some(Err(error)) => {
                    &&& calls.len() > count
                    &&& calls[count] == CleanupCall::<Seq<char>, E>::WarnOfShutdown(error)
                    &&& turns.len() > count ==> calls.len() > count + 1 && takes_event(
                        calls[count + 1],
                    )
                },
                None => true,
            }
        }),
{
    let shutdown = manager_dialogue::shutdown_dialogue::<E>(shutdown_commands);
    let calls = cleanup_calls(wm::shut_down(shutdown), turns);
    lemma_shut_down(shutdown, turns);
    shutdown.lemma_turns(turns);
    let asked = as_cleanup_calls::<E>(shutdown.questions(turns));
    let count = shutdown.turns(turns) as int;
    assert(forall|i: int| 0 <= i < asked.len() ==> !warns(#[trigger] asked[i]));
    match shutdown.outcome(turns) {
        Some(result) => {
            let rest = turns.skip(count);
            let ending = cleanup_calls(wm::after_shutdown(result), rest);
            lemma_after_shutdown(result, rest);
            assert(calls == asked + ending);
            assert forall|i: int| 0 <= i < calls.len() && warns(#[trigger] calls[i]) implies i
                == count && result == Err::<ContainerId, WmError<E>>(
                calls[i]->WarnOfShutdown_0,
            ) by {
                if i < count {
                    assert(calls[i] == asked[i]);
                } else {
                    assert(calls[i] == ending[i - count]);
                }
            }
        },
        None => {},
    }
}

/// An exiting window manager publishes every event that is left in the queue,
/// and ends only when none is left, whatever came of its shutdown commands.
pub proof fn law_exit_publishes_every_event<E>(
    shutdown_commands: Seq<InvokeCommand>,
    turns: Seq<Turn<E>>,
)
    ensures
        ({
            let exit = wm::shut_down(manager_dialogue::shutdown_dialogue::<E>(shutdown_commands));
            let calls = cleanup_calls(exit, turns);
            &&& publishes_every_event(calls, turns)
            &&& cleanup_ends(exit, turns) ==> 0 < calls.len() <= turns.len() && takes_event(
                calls.last(),
            ) && !(turns[calls.len() - 1].reply matches Reply::Event(Some(_)))
        }),
{
    let shutdown = manager_dialogue::shutdown_dialogue::<E>(shutdown_commands);
    let exit = wm::shut_down(shutdown);
    let calls = cleanup_calls(exit, turns);
    lemma_shutdown_calls(shutdown_commands, turns);
    lemma_shut_down(shutdown, turns);
    shutdown.lemma_turns(turns);
    let questions = shutdown.questions(turns);
    let asked = as_cleanup_calls::<E>(questions);
    let count = shutdown.turns(turns) as int;
    let rest = turns.skip(count);
    assert forall|i: int| 0 <= i < asked.len() implies !takes_event(#[trigger] asked[i])
        && !publishes(asked[i]) by {
        assert(asked[i] == CleanupCall::<Seq<char>, E>::Make(questions[i]));
        assert(i >= 2 ==> is_of_processing(questions[i]));
    }
    match shutdown.outcome(turns) {
        Some(result) => {
            lemma_after_shutdown(result, rest);
            let ending = cleanup_calls(wm::after_shutdown(result), rest);
            lemma_published_behind(asked, ending, turns);
            if cleanup_ends(exit, turns) {
                assert(calls.last() == ending.last());
                assert(turns[calls.len() - 1] == rest[ending.len() - 1]);
            }
        },
        None => {},
    }
}

} // verus!
