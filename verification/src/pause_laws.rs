//! What holds of the pause, given a host that toggles and ends it as it is asked
//! to.
use vstd::prelude::*;

use crate::call::{Action, Call, CleanupCall, CommandCall, ManagerCall, Reply, Turn};
use crate::command::InvokeCommand;
use crate::command_dialogue;
use crate::config::UserConfig;
use crate::dialogue::Dialogue;
use crate::error::WmError;
use crate::manager_dialogue;
use crate::manager_laws;
use crate::state::{Container, WmState};
use crate::transcript;
use crate::wm;

verus! {

// ---------------------------------------------------------------------------
// The host's part.

/// Whether the pause is, after a call, what the call makes of it. `was_paused`
/// is the pause before the call.
///
/// A toggle that succeeds negates the pause, and an unpause ends it. What the
/// other actions, the handlers and the animations do to it is left open;
/// everything else leaves it as it is.
pub open spec fn keeps_pause_right<E>(
    call: Call<Seq<char>>,
    was_paused: bool,
    turn: Turn<E>,
) -> bool {
    match call {
        Call::Command(CommandCall::Act(Action::TogglePause)) => turn.reply is Done
            ==> turn.state.is_paused == !was_paused,
        Call::Command(_) => true,
        Call::Manage(ManagerCall::Unpause) => !turn.state.is_paused,
        Call::Manage(ManagerCall::Populate) => true,
        Call::Manage(ManagerCall::Handle(_)) => true,
        Call::Manage(ManagerCall::UpdateAnimations) => true,
        Call::Manage(_) => turn.state.is_paused == was_paused,
    }
}

/// Whether that holds of every call. `state` is the state before the first.
pub open spec fn pause_is_kept_right<E>(
    state: WmState,
    calls: Seq<Call<Seq<char>>>,
    turns: Seq<Turn<E>>,
) -> bool {
    forall|i: int|
        0 <= i < calls.len() && i < turns.len() ==> keeps_pause_right(
            #[trigger] calls[i],
            transcript::state_after(state, turns, i as nat).is_paused,
            turns[i],
        )
}

/// Whether that holds of every call of an exit. A warning leaves the pause as
/// it is.
pub open spec fn pause_is_kept_right_at_exit<E>(
    state: WmState,
    calls: Seq<CleanupCall<Seq<char>, E>>,
    turns: Seq<Turn<E>>,
) -> bool {
    forall|i: int|
        0 <= i < calls.len() && i < turns.len() ==> match #[trigger] calls[i] {
            CleanupCall::Make(call) => keeps_pause_right(
                call,
                transcript::state_after(state, turns, i as nat).is_paused,
                turns[i],
            ),
            CleanupCall::WarnOfShutdown(_) => turns[i].state.is_paused == transcript::state_after(
                state,
                turns,
                i as nat,
            ).is_paused,
        }
}

// ---------------------------------------------------------------------------
// Toggling the pause.

/// Whether the call toggles the pause.
pub open spec fn toggles(call: Call<Seq<char>>) -> bool {
    call == Call::<Seq<char>>::Command(CommandCall::Act(Action::TogglePause))
}

/// How many of the calls toggle the pause.
pub open spec fn toggle_count(calls: Seq<Call<Seq<char>>>) -> nat
    decreases calls.len(),
{
    if calls.len() == 0 {
        0
    } else {
        toggle_count(calls.drop_first()) + if toggles(calls[0]) {
            1nat
        } else {
            0
        }
    }
}

/// Toggling the pause negates it, in a paused window manager and in one that is
/// not: a paused window manager can always be unpaused.
pub proof fn law_toggle_negates_pause<E>(
    subject: Container,
    state: WmState,
    config: UserConfig,
    turn: Turn<E>,
)
    requires
        !subject.facts.is_detached,
        turn.reply is Done,
        keeps_pause_right(
            Call::Command(CommandCall::Act(Action::TogglePause)),
            state.is_paused,
            turn,
        ),
    ensures
        ({
            let toggle = command_dialogue::run_command_dialogue::<E>(
                InvokeCommand::WmTogglePause,
                subject,
                state,
                config,
            );
            &&& toggle.questions(seq![turn.reply]) == seq![
                CommandCall::<Seq<char>>::Act(Action::TogglePause),
            ]
            &&& toggle.outcome(seq![turn.reply]) == Some(Ok::<(), WmError<E>>(()))
            &&& turn.state.is_paused == !state.is_paused
        }),
{
    reveal_with_fuel(Dialogue::questions, 2);
    reveal_with_fuel(Dialogue::outcome, 2);
    let actions = seq![Action::TogglePause];
    assert(actions.drop_first() =~= Seq::empty());
    let toggle = command_dialogue::script::<E>(actions);
    assert(toggle.questions(seq![turn.reply]) =~= seq![
        CommandCall::<Seq<char>>::Act(Action::TogglePause),
    ]);
}

/// What a command that toggles the pause asks for, where it succeeds.
proof fn lemma_toggle<E>(
    subject: Container,
    state: WmState,
    config: UserConfig,
    replies: Seq<Reply<E>>,
)
    requires
        command_dialogue::run_command_dialogue::<E>(
            InvokeCommand::WmTogglePause,
            subject,
            state,
            config,
        ).outcome(replies) matches Some(Ok(_)),
    ensures
        ({
            let toggle = command_dialogue::run_command_dialogue::<E>(
                InvokeCommand::WmTogglePause,
                subject,
                state,
                config,
            );
            &&& toggle.questions(replies) == seq![
                CommandCall::<Seq<char>>::Act(Action::TogglePause),
            ]
            &&& toggle.turns(replies) == 1
            &&& replies.len() > 0 && replies[0] is Done
        }),
{
    let actions = seq![Action::TogglePause];
    assert(actions.drop_first() =~= Seq::empty());
    let toggle = command_dialogue::script::<E>(actions);
    let left = toggle->Ask_1(replies[0]);
    assert(toggle.outcome(replies) == left.outcome(replies.drop_first()));
    assert(left is Return);
    assert(toggle.questions(replies) == seq![toggle->Ask_0] + left.questions(
        replies.drop_first(),
    ));
    assert(toggle.questions(replies) =~= seq![toggle->Ask_0]);
    toggle.lemma_turns(replies);
}

/// Commands each of which toggles the pause leave it negated where an odd number
/// of toggles was carried out, and as it was where an even number was.
pub proof fn law_toggles_alternate_pause<E>(
    commands: Seq<InvokeCommand>,
    subject: Container,
    state: WmState,
    config: UserConfig,
    turns: Seq<Turn<E>>,
)
    requires
        forall|i: int| 0 <= i < commands.len() ==> (#[trigger] commands[i]) is WmTogglePause,
        ({
            let row = manager_dialogue::commands_dialogue::<E>(commands, subject, state, config);
            &&& row.outcome(turns) matches Some(Ok(_))
            &&& pause_is_kept_right(state, row.questions(turns), turns)
        }),
    ensures
        ({
            let row = manager_dialogue::commands_dialogue::<E>(commands, subject, state, config);
            let count = toggle_count(row.questions(turns));
            let end = transcript::state_after(state, turns, row.turns(turns));
            &&& count <= commands.len()
            &&& end.is_paused == (state.is_paused == (count % 2 == 0))
            &&& manager_laws::row_leaves(commands, subject, state, config, turns) is Some
                ==> count == commands.len()
        }),
    decreases commands.len(),
{
    if commands.len() > 0 {
        let row = manager_dialogue::commands_dialogue::<E>(commands, subject, state, config);
        let calls = row.questions(turns);
        let rest = commands.drop_first();
        assert(commands[0] is WmTogglePause);
        assert forall|i: int| 0 <= i < rest.len() implies (#[trigger] rest[i]) is WmTogglePause by {
            assert(rest[i] == commands[i + 1]);
        }
        let command = command_dialogue::run_command_dialogue::<E>(
            commands[0],
            subject,
            state,
            config,
        );
        let next = manager_dialogue::after_command::<E>(rest, subject);
        let replies = transcript::replies(turns);
        transcript::lemma_lifted(command, next, turns);
        assert(command.outcome(replies) matches Some(Ok(_)));
        lemma_toggle(subject, state, config, replies);
        let toggle = Call::<Seq<char>>::Command(CommandCall::Act(Action::TogglePause));
        assert(transcript::as_calls(command.questions(replies)) =~= seq![toggle]);
        let looked = turns.skip(1);
        let look = next(command.outcome(replies)->0);
        let searched = looked.drop_first();
        let left = look->Ask_1(looked[0]);
        assert(looked.len() > 0);
        assert(look.questions(looked) == seq![look->Ask_0] + left.questions(searched));
        assert(look.outcome(looked) == left.outcome(searched));
        assert(look.turns(looked) == 1 + left.turns(searched));
        left.lemma_turns(searched);
        assert(turns[0].reply == replies[0]);
        assert(keeps_pause_right(calls[0], state.is_paused, turns[0]));
        assert(calls[1] == look->Ask_0);
        assert(looked[0] == turns[1]);
        assert(keeps_pause_right(calls[1], turns[0].state.is_paused, turns[1]));
        match looked[0].reply {
            Reply::Facts(facts) => {
                if !facts.is_detached {
                    let asked = left.questions(searched);
                    assert(calls =~= seq![toggle, look->Ask_0] + asked);
                    lemma_pause_behind(seq![toggle, look->Ask_0], asked, state, turns);
                    lemma_toggle_count_behind(toggle, seq![look->Ask_0] + asked);
                    lemma_toggle_count_behind(look->Ask_0, asked);
                    assert(calls =~= seq![toggle] + (seq![look->Ask_0] + asked));
                    assert(turns.skip(2) =~= searched);
                    law_toggles_alternate_pause(
                        rest,
                        Container { node: subject.node, id: subject.id, facts },
                        looked[0].state,
                        looked[0].config,
                        searched,
                    );
                } else {
                    assert(searched.len() > 0);
                    let turns3 = searched.drop_first();
                    let found = left->Ask_1(searched[0]);
                    assert(left.questions(searched) == seq![left->Ask_0] + found.questions(turns3));
                    assert(left.outcome(searched) == found.outcome(turns3));
                    assert(left.turns(searched) == 1 + found.turns(turns3));
                    found.lemma_turns(turns3);
                    let asked = found.questions(turns3);
                    let head = seq![toggle, look->Ask_0, left->Ask_0];
                    assert(calls =~= head + asked);
                    assert(calls[2] == left->Ask_0);
                    assert(searched[0] == turns[2]);
                    assert(keeps_pause_right(calls[2], turns[1].state.is_paused, turns[2]));
                    lemma_pause_behind(head, asked, state, turns);
                    lemma_toggle_count_behind(
                        toggle,
                        seq![look->Ask_0] + (seq![left->Ask_0] + asked),
                    );
                    lemma_toggle_count_behind(look->Ask_0, seq![left->Ask_0] + asked);
                    lemma_toggle_count_behind(left->Ask_0, asked);
                    assert(calls =~= seq![toggle] + (seq![look->Ask_0] + (seq![left->Ask_0]
                        + asked)));
                    assert(turns.skip(3) =~= turns3);
                    match searched[0].reply {
                        Reply::Container(Some(replacement)) => {
                            law_toggles_alternate_pause(
                                rest,
                                replacement,
                                searched[0].state,
                                searched[0].config,
                                turns3,
                            );
                        },
                        _ => {
                            assert(asked =~= Seq::empty());
                        },
                    }
                }
            },
            _ => {},
        }
    }
}

/// One more call in front of others.
proof fn lemma_toggle_count_behind(call: Call<Seq<char>>, calls: Seq<Call<Seq<char>>>)
    ensures
        toggle_count(seq![call] + calls) == toggle_count(calls) + if toggles(call) {
            1nat
        } else {
            0
        },
{
    assert((seq![call] + calls).drop_first() =~= calls);
}

/// Where the pause is kept right, it is so from any call on.
proof fn lemma_pause_behind<E>(
    head: Seq<Call<Seq<char>>>,
    calls: Seq<Call<Seq<char>>>,
    state: WmState,
    turns: Seq<Turn<E>>,
)
    requires
        0 < head.len() <= turns.len(),
        pause_is_kept_right(state, head + calls, turns),
    ensures
        pause_is_kept_right(
            turns[head.len() - 1].state,
            calls,
            turns.skip(head.len() as int),
        ),
{
    let count = head.len();
    let rest = turns.skip(count as int);
    assert forall|i: int| 0 <= i < calls.len() && i < rest.len() implies keeps_pause_right(
        #[trigger] calls[i],
        transcript::state_after(turns[count - 1].state, rest, i as nat).is_paused,
        rest[i],
    ) by {
        assert((head + calls)[count + i] == calls[i]);
        assert(transcript::state_after(turns[count - 1].state, rest, i as nat)
            == transcript::state_after(state, turns, (count + i) as nat));
    }
}

/// Toggling the pause twice brings it back. The subject must be there for the
/// second toggle: where the first leaves none, the second is not run.
pub proof fn law_two_toggles_restore_pause<E>(
    subject: Container,
    state: WmState,
    config: UserConfig,
    turns: Seq<Turn<E>>,
)
    requires
        ({
            let commands = seq![InvokeCommand::WmTogglePause, InvokeCommand::WmTogglePause];
            let row = manager_dialogue::commands_dialogue::<E>(commands, subject, state, config);
            &&& row.outcome(turns) matches Some(Ok(_))
            &&& manager_laws::row_leaves(
                seq![InvokeCommand::WmTogglePause],
                subject,
                state,
                config,
                turns,
            ) is Some
            &&& pause_is_kept_right(state, row.questions(turns), turns)
        }),
    ensures
        ({
            let commands = seq![InvokeCommand::WmTogglePause, InvokeCommand::WmTogglePause];
            let row = manager_dialogue::commands_dialogue::<E>(commands, subject, state, config);
            transcript::state_after(state, turns, row.turns(turns)).is_paused == state.is_paused
        }),
{
    let one = seq![InvokeCommand::WmTogglePause];
    let commands = seq![InvokeCommand::WmTogglePause, InvokeCommand::WmTogglePause];
    assert(one + one =~= commands);
    manager_laws::law_row_of_two_rows(one, one, subject, state, config, turns);
    law_toggles_alternate_pause(commands, subject, state, config, turns);
    let row = manager_dialogue::commands_dialogue::<E>(commands, subject, state, config);
    let first = manager_dialogue::commands_dialogue::<E>(one, subject, state, config);
    first.lemma_turns(turns);
    let rest = turns.skip(first.turns(turns) as int);
    let (left, now, config_now) = manager_laws::row_leaves(one, subject, state, config, turns)->0;
    let second = manager_dialogue::commands_dialogue::<E>(one, left, now, config_now);
    lemma_one_toggle(subject, state, config, turns);
    lemma_one_toggle(left, now, config_now, rest);
    lemma_toggle_count_adds(first.questions(turns), second.questions(rest));
}

/// A row of one toggle that succeeds asks for one toggle.
proof fn lemma_one_toggle<E>(
    subject: Container,
    state: WmState,
    config: UserConfig,
    turns: Seq<Turn<E>>,
)
    requires
        manager_dialogue::commands_dialogue::<E>(
            seq![InvokeCommand::WmTogglePause],
            subject,
            state,
            config,
        ).outcome(turns) matches Some(Ok(_)),
    ensures
        toggle_count(
            manager_dialogue::commands_dialogue::<E>(
                seq![InvokeCommand::WmTogglePause],
                subject,
                state,
                config,
            ).questions(turns),
        ) >= 1,
{
    let one = seq![InvokeCommand::WmTogglePause];
    let row = manager_dialogue::commands_dialogue::<E>(one, subject, state, config);
    let command = command_dialogue::run_command_dialogue::<E>(one[0], subject, state, config);
    let next = manager_dialogue::after_command::<E>(one.drop_first(), subject);
    let replies = transcript::replies(turns);
    transcript::lemma_lifted(command, next, turns);
    assert(command.outcome(replies) matches Some(Ok(_)));
    lemma_toggle(subject, state, config, replies);
    assert(row.questions(turns).len() > 0);
    assert(toggles(row.questions(turns)[0]));
}

proof fn lemma_toggle_count_adds(first: Seq<Call<Seq<char>>>, second: Seq<Call<Seq<char>>>)
    ensures
        toggle_count(first + second) == toggle_count(first) + toggle_count(second),
    decreases first.len(),
{
    if first.len() == 0 {
        assert(first + second =~= second);
    } else {
        lemma_toggle_count_adds(first.drop_first(), second);
        assert((first + second).drop_first() =~= first.drop_first() + second);
    }
}

// ---------------------------------------------------------------------------
// Exiting.

/// The shutdown commands are processed in a state that is not paused, whatever
/// the pause was before: the first of them is run as in a window manager that
/// was never paused.
pub proof fn law_exit_runs_commands_unpaused<E>(
    shutdown_commands: Seq<InvokeCommand>,
    turns: Seq<Turn<E>>,
)
    requires
        turns.len() >= 2,
        keeps_pause_right(
            Call::Manage(ManagerCall::Unpause),
            turns[0].state.is_paused,
            turns[1],
        ),
    ensures
        ({
            let exit = wm::shut_down(manager_dialogue::shutdown_dialogue::<E>(shutdown_commands));
            let now = turns[1].state;
            let processing = manager_dialogue::process_commands_dialogue::<E>(
                shutdown_commands,
                None,
                now,
                turns[1].config,
            );
            &&& !now.is_paused
            &&& manager_laws::cleanup_calls(exit, turns) == seq![
                CleanupCall::<Seq<char>, E>::Make(
                    Call::Manage(ManagerCall::EmitApplicationExiting),
                ),
                CleanupCall::<Seq<char>, E>::Make(Call::Manage(ManagerCall::Unpause)),
            ] + manager_laws::cleanup_calls(wm::shut_down(processing), turns.skip(2))
            &&& manager_laws::cleanup_ends(exit, turns) == manager_laws::cleanup_ends(
                wm::shut_down(processing),
                turns.skip(2),
            )
            &&& forall|command: InvokeCommand, subject: Container|
                !subject.facts.is_detached
                    ==> #[trigger] command_dialogue::run_command_dialogue::<E>(
                    command,
                    subject,
                    now,
                    turns[1].config,
                ) == command_dialogue::command_body::<E>(command, subject, now, turns[1].config)
        }),
{
    let exit = wm::shut_down(manager_dialogue::shutdown_dialogue::<E>(shutdown_commands));
    let turns1 = turns.drop_first();
    let next1 = wm::cleanup_next((exit->0).1, turns[0]);
    let next2 = wm::cleanup_next((next1->0).1, turns1[0]);
    assert(turns1.drop_first() =~= turns.skip(2));
    assert(manager_laws::cleanup_calls(exit, turns) == seq![(exit->0).0]
        + manager_laws::cleanup_calls(next1, turns1));
    assert(manager_laws::cleanup_calls(next1, turns1) == seq![(next1->0).0]
        + manager_laws::cleanup_calls(next2, turns.skip(2)));
    assert(manager_laws::cleanup_calls(exit, turns) =~= seq![(exit->0).0, (next1->0).0]
        + manager_laws::cleanup_calls(next2, turns.skip(2)));
    assert(manager_laws::cleanup_ends(exit, turns) == manager_laws::cleanup_ends(next1, turns1));
}

/// An exit is the same whether or not the window manager was paused before: it
/// does not depend on the state as it was until the pause was ended.
pub proof fn law_exit_is_same_from_pause<E>(
    shutdown_commands: Seq<InvokeCommand>,
    turns: Seq<Turn<E>>,
    other: Turn<E>,
)
    requires
        turns.len() > 0,
    ensures
        ({
            let exit = wm::shut_down(manager_dialogue::shutdown_dialogue::<E>(shutdown_commands));
            let others = turns.update(0, other);
            &&& manager_laws::cleanup_calls(exit, others) == manager_laws::cleanup_calls(
                exit,
                turns,
            )
            &&& manager_laws::cleanup_ends(exit, others) == manager_laws::cleanup_ends(exit, turns)
        }),
{
    let exit = wm::shut_down(manager_dialogue::shutdown_dialogue::<E>(shutdown_commands));
    let others = turns.update(0, other);
    assert(others.drop_first() =~= turns.drop_first());
    assert(wm::cleanup_next((exit->0).1, others[0]) == wm::cleanup_next((exit->0).1, turns[0]));
}

/// Without shutdown commands the window manager is not paused from the end of
/// its pause to the end of its exit, whatever the pause was before.
pub proof fn law_exit_without_commands_stays_unpaused<E>(
    state: WmState,
    turns: Seq<Turn<E>>,
    place: int,
)
    requires
        ({
            let exit = wm::shut_down(manager_dialogue::shutdown_dialogue::<E>(Seq::empty()));
            let calls = manager_laws::cleanup_calls(exit, turns);
            &&& pause_is_kept_right_at_exit(state, calls, turns)
            &&& 1 <= place < calls.len()
            &&& place < turns.len()
        }),
    ensures
        !turns[place].state.is_paused,
    decreases place,
{
    let exit = wm::shut_down(manager_dialogue::shutdown_dialogue::<E>(Seq::empty()));
    let calls = manager_laws::cleanup_calls(exit, turns);
    manager_laws::law_exit_ends_the_pause_first::<E>(Seq::empty(), turns);
    if place == 1 {
        assert(calls[1] is Make);
    } else {
        law_exit_without_commands_stays_unpaused(state, turns, place - 1);
        lemma_exit_without_commands(turns, place);
        assert(calls[place] is Make || calls[place] is WarnOfShutdown);
    }
}

/// What an exit without shutdown commands asks for once the pause has ended.
proof fn lemma_exit_without_commands<E>(turns: Seq<Turn<E>>, place: int)
    requires
        2 <= place < manager_laws::cleanup_calls(
            wm::shut_down(manager_dialogue::shutdown_dialogue::<E>(Seq::empty())),
            turns,
        ).len(),
    ensures
        ({
            let call = manager_laws::cleanup_calls(
                wm::shut_down(manager_dialogue::shutdown_dialogue::<E>(Seq::empty())),
                turns,
            )[place];
            match call {
                CleanupCall::Make(Call::Manage(call)) => call is PlatformSync
                    || call is EnsureTimerRunning || call is NextEvent || call is PublishEvent,
                CleanupCall::Make(Call::Command(_)) => false,
                CleanupCall::WarnOfShutdown(_) => true,
            }
        }),
{
    let shutdown = manager_dialogue::shutdown_dialogue::<E>(Seq::empty());
    let calls = manager_laws::cleanup_calls(wm::shut_down(shutdown), turns);
    let questions = shutdown.questions(turns);
    manager_laws::lemma_shut_down(shutdown, turns);
    lemma_shutdown_without_commands(turns);
    let asked = manager_laws::as_cleanup_calls::<E>(questions);
    if place < asked.len() {
        assert(calls[place] == asked[place]);
        assert(asked[place] == CleanupCall::<Seq<char>, E>::Make(questions[place]));
    } else if let Some(result) = shutdown.outcome(turns) {
        let rest = turns.skip(shutdown.turns(turns) as int);
        manager_laws::lemma_after_shutdown(result, rest);
        let ending = manager_laws::cleanup_calls(wm::after_shutdown(result), rest);
        assert(calls[place] == ending[place - asked.len()]);
    }
}

/// A shutdown without commands only brings the platform up to date.
proof fn lemma_shutdown_without_commands<E>(turns: Seq<Turn<E>>)
    ensures
        ({
            let calls = manager_dialogue::shutdown_dialogue::<E>(Seq::empty()).questions(turns);
            forall|i: int|
                2 <= i < calls.len() ==> manager_laws::syncs(#[trigger] calls[i])
                    || manager_laws::starts_timer(calls[i])
        }),
{
    let shutdown = manager_dialogue::shutdown_dialogue::<E>(Seq::empty());
    let calls = shutdown.questions(turns);
    if turns.len() > 0 {
        let turns1 = turns.drop_first();
        let left1 = shutdown->Ask_1(turns[0]);
        assert(calls == seq![shutdown->Ask_0] + left1.questions(turns1));
        if turns1.len() > 0 {
            let turns2 = turns1.drop_first();
            let left2 = left1->Ask_1(turns1[0]);
            assert(left1.questions(turns1) == seq![left1->Ask_0] + left2.questions(turns2));
            assert(calls =~= seq![shutdown->Ask_0, left1->Ask_0] + left2.questions(turns2));
            assert(forall|i: int|
                0 <= i < left2.questions(turns2).len() ==> manager_laws::syncs(
                    #[trigger] left2.questions(turns2)[i],
                ) || manager_laws::starts_timer(left2.questions(turns2)[i])) by {
                reveal_with_fuel(Dialogue::questions, 3);
            }
        }
    }
}

} // verus!
