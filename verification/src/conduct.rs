//! The words in which the conduct of an operation is told: which calls it asks
//! for, and how it goes on from each reply.
use vstd::prelude::*;

use crate::call::{Action, Call, CommandCall, ManagerCall, Reply, Turn};
use crate::command_dialogue;
use crate::command_dialogue::CommandDialogue;
use crate::dialogue::Dialogue;
use crate::error::WmError;
use crate::manager_dialogue;
use crate::manager_dialogue::ManagerDialogue;

verus! {

/// The error of an operation on a reply that it cannot go on from.
pub open spec fn failure_of<E>(reply: Reply<E>) -> WmError<E> {
    match reply {
        Reply::Failed(error) => WmError::Host(error),
        _ => WmError::UnexpectedReply,
    }
}

/// One call of a command that makes its calls one after the other.
pub struct Part {
    pub call: CommandCall<Seq<char>>,
    /// Whether the command ends where the call fails. Otherwise it goes on as
    /// from a success.
    pub failure_counts: bool,
}

/// An action whose failure is the command's.
pub open spec fn counted(action: Action) -> Part {
    Part { call: CommandCall::Act(action), failure_counts: true }
}

/// An action whose failure is passed over.
pub open spec fn passed_over(action: Action) -> Part {
    Part { call: CommandCall::Act(action), failure_counts: false }
}

/// Whether the command makes exactly these calls in this order, up to the first
/// failure that counts, and otherwise succeeds.
#[verifier::opaque]
pub open spec fn does_in_turn<E>(command: CommandDialogue<E>, parts: Seq<Part>) -> bool
    decreases parts.len(),
{
    if parts.len() == 0 {
        command == CommandDialogue::<E>::Return(Ok(()))
    } else {
        match command {
            Dialogue::Return(_) => false,
            Dialogue::Ask(call, next) => {
                &&& call == parts[0].call
                &&& does_in_turn(next(Reply::Done), parts.drop_first())
                &&& forall|reply: Reply<E>|
                    !(reply is Done) ==> #[trigger] next(reply) == if reply is Failed
                        && !parts[0].failure_counts {
                        next(Reply::Done)
                    } else {
                        CommandDialogue::<E>::Return(Err(failure_of(reply)))
                    }
            },
        }
    }
}

/// These actions as calls whose failures count.
pub open spec fn all_counted(actions: Seq<Action>) -> Seq<Part> {
    actions.map_values(|action: Action| counted(action))
}

/// The action, where it is called for.
#[verifier::opaque]
pub open spec fn given(is_called_for: bool, action: Action) -> Seq<Action> {
    if is_called_for {
        seq![action]
    } else {
        seq![]
    }
}

/// Whether the operation makes exactly these calls in this order, up to the
/// first failure, and otherwise succeeds with `value`.
pub open spec fn winds_up<E, T>(
    operation: ManagerDialogue<E, Result<T, WmError<E>>>,
    calls: Seq<Call<Seq<char>>>,
    value: T,
) -> bool
    decreases calls.len(),
{
    if calls.len() == 0 {
        operation == ManagerDialogue::<E, Result<T, WmError<E>>>::Return(Ok(value))
    } else {
        match operation {
            Dialogue::Return(_) => false,
            Dialogue::Ask(call, next) => {
                &&& call == calls[0]
                &&& forall|turn: Turn<E>|
                    if turn.reply is Done {
                        winds_up(#[trigger] next(turn), calls.drop_first(), value)
                    } else {
                        next(turn) == ManagerDialogue::<E, Result<T, WmError<E>>>::Return(
                            Err(failure_of(turn.reply)),
                        )
                    }
            },
        }
    }
}

/// The call for an update of the platform.
pub open spec fn sync_call() -> Call<Seq<char>> {
    Call::Manage(ManagerCall::PlatformSync)
}

/// The call for the start of the animation timer.
pub open spec fn timer_call() -> Call<Seq<char>> {
    Call::Manage(ManagerCall::EnsureTimerRunning)
}

// ---------------------------------------------------------------------------
// The conduct of actions in a row.

/// Actions in a row are done in turn.
pub proof fn lemma_script_does<E>(actions: Seq<Action>, parts: Seq<Part>)
    requires
        parts.len() == actions.len(),
        forall|i: int|
            0 <= i < parts.len() ==> (#[trigger] parts[i]) == (Part {
                call: CommandCall::Act(actions[i]),
                failure_counts: !command_dialogue::tolerates_failure(actions[i]),
            }),
    ensures
        does_in_turn(command_dialogue::script::<E>(actions), parts),
    decreases actions.len(),
{
    reveal(does_in_turn);
    if actions.len() > 0 {
        let rest = actions.drop_first();
        let parts1 = parts.drop_first();
        assert(parts[0].call == CommandCall::<Seq<char>>::Act(actions[0]));
        assert forall|i: int| 0 <= i < parts1.len() implies (#[trigger] parts1[i]) == (Part {
            call: CommandCall::Act(rest[i]),
            failure_counts: !command_dialogue::tolerates_failure(rest[i]),
        }) by {
            assert(parts1[i] == parts[i + 1]);
        }
        lemma_script_does::<E>(rest, parts1);
    }
}

/// Actions in a row, the failure of each of which counts, are done in turn.
pub proof fn lemma_script_does_counted<E>(actions: Seq<Action>)
    requires
        forall|i: int|
            0 <= i < actions.len() ==> !command_dialogue::tolerates_failure(#[trigger] actions[i]),
    ensures
        does_in_turn(command_dialogue::script::<E>(actions), all_counted(actions)),
{
    lemma_script_does::<E>(actions, all_counted(actions));
}

/// Whether the two rows of actions are one and the same.
pub open spec fn same(first: Seq<Action>, second: Seq<Action>) -> bool {
    first == second
}

pub proof fn lemma_given_perhaps(is_called_for: bool, action: Action, option: Option<Action>)
    requires
        is_called_for ==> option == Some(action),
        !is_called_for ==> option is None,
    ensures
        same(given(is_called_for, action), command_dialogue::perhaps(option)),
{
    reveal(given);
}

pub proof fn lemma_given_wanted(is_called_for: bool, action: Action)
    ensures
        same(given(is_called_for, action), command_dialogue::wanted(is_called_for, action)),
{
    reveal(given);
}

/// Whether the failure of each of the actions counts.
#[verifier::opaque]
pub open spec fn all_count(actions: Seq<Action>) -> bool {
    forall|i: int|
        0 <= i < actions.len() ==> !command_dialogue::tolerates_failure(#[trigger] actions[i])
}

pub broadcast proof fn lemma_all_count_given(is_called_for: bool, action: Action)
    requires
        !command_dialogue::tolerates_failure(action),
    ensures
        #[trigger] all_count(given(is_called_for, action)),
{
    reveal(all_count);
    reveal(given);
}

pub broadcast proof fn lemma_all_count_concat(first: Seq<Action>, second: Seq<Action>)
    requires
        all_count(first),
        all_count(second),
    ensures
        #[trigger] all_count(first + second),
{
    reveal(all_count);
}

pub proof fn lemma_script_does_all<E>(actions: Seq<Action>)
    requires
        all_count(actions),
    ensures
        does_in_turn(command_dialogue::script::<E>(actions), all_counted(actions)),
{
    reveal(all_count);
    lemma_script_does_counted::<E>(actions);
}

/// The end of an operation that brings the platform up to date.
pub proof fn lemma_winds_up<E, T>(value: T, is_due: bool, with_timer: bool)
    ensures
        winds_up(
            manager_dialogue::sync_and_wrap_up::<E, T>(value, is_due, with_timer),
            (if is_due {
                seq![sync_call()]
            } else {
                seq![]
            }) + (if with_timer {
                seq![timer_call()]
            } else {
                seq![]
            }),
            value,
        ),
{
    reveal_with_fuel(winds_up, 3);
    let timer = if with_timer {
        seq![timer_call()]
    } else {
        seq![]
    };
    assert((seq![sync_call()] + timer).drop_first() =~= timer);
    assert(Seq::<Call<Seq<char>>>::empty() + timer =~= timer);
    assert(seq![timer_call()].drop_first() =~= Seq::empty());
}

} // verus!
