//! How the transcripts of dialogues that are put together are made up.
use vstd::prelude::*;

use crate::call::{Call, CommandCall, Reply, Turn};
use crate::command_dialogue::CommandDialogue;
use crate::dialogue::Dialogue;
use crate::error::WmError;
use crate::manager_dialogue;
use crate::manager_dialogue::ManagerDialogue;
use crate::state::WmState;

verus! {

/// The replies of some turns.
pub open spec fn replies<E>(turns: Seq<Turn<E>>) -> Seq<Reply<E>> {
    turns.map_values(|turn: Turn<E>| turn.reply)
}

/// A command's calls, as calls of the window manager.
pub open spec fn as_calls(calls: Seq<CommandCall<Seq<char>>>) -> Seq<Call<Seq<char>>> {
    calls.map_values(|call: CommandCall<Seq<char>>| Call::Command(call))
}

/// The state after that many turns. `now` is the state before the first.
pub open spec fn state_after<E>(now: WmState, turns: Seq<Turn<E>>, count: nat) -> WmState {
    if count == 0 {
        now
    } else {
        turns[count - 1].state
    }
}

/// A lifted command asks what the command asks and, once the command has
/// ended, what comes next.
pub proof fn lemma_lifted<E, T>(
    command: CommandDialogue<E>,
    next: spec_fn(Result<(), WmError<E>>) -> ManagerDialogue<E, T>,
    turns: Seq<Turn<E>>,
)
    ensures
        ({
            let whole = manager_dialogue::lifted(command, next);
            let count = command.turns(replies(turns));
            match command.outcome(replies(turns)) {
                Some(result) => {
                    &&& whole.questions(turns) == as_calls(command.questions(replies(turns)))
                        + next(result).questions(turns.skip(count as int))
                    &&& whole.outcome(turns) == next(result).outcome(turns.skip(count as int))
                    &&& whole.turns(turns) == count + next(result).turns(turns.skip(count as int))
                },
                None => {
                    &&& whole.questions(turns) == as_calls(command.questions(replies(turns)))
                    &&& whole.outcome(turns) is None
                },
            }
        }),
    decreases turns.len(),
{
    let whole = manager_dialogue::lifted(command, next);
    match command {
        Dialogue::Return(result) => {
            assert(as_calls(command.questions(replies(turns))) =~= Seq::empty());
            assert(turns.skip(0) =~= turns);
            assert(Seq::<Call<Seq<char>>>::empty() + next(result).questions(turns) =~= next(
                result,
            ).questions(turns));
        },
        Dialogue::Ask(call, resumption) => {
            manager_dialogue::lemma_lifted_ask(call, resumption, next);
            if turns.len() == 0 {
                assert(as_calls(seq![call]) =~= seq![Call::Command(call)]);
            } else {
                let rest = turns.drop_first();
                let left = resumption(turns[0].reply);
                assert(replies(turns)[0] == turns[0].reply);
                assert(replies(turns).drop_first() =~= replies(rest));
                lemma_lifted(left, next, rest);
                let count = left.turns(replies(rest));
                left.lemma_turns(replies(rest));
                assert(rest.skip(count as int) =~= turns.skip(count as int + 1));
                assert(as_calls(command.questions(replies(turns))) =~= seq![Call::Command(call)]
                    + as_calls(left.questions(replies(rest))));
                match left.outcome(replies(rest)) {
                    Some(result) => {
                        assert(whole.questions(turns) =~= as_calls(
                            command.questions(replies(turns)),
                        ) + next(result).questions(turns.skip(count as int + 1)));
                    },
                    None => {},
                }
            }
        },
    }
}

/// A followed operation asks what the operation asks and, once the operation
/// has ended, what comes next.
pub proof fn lemma_followed<E, T, U>(
    operation: ManagerDialogue<E, T>,
    now: WmState,
    next: spec_fn(T, WmState) -> ManagerDialogue<E, U>,
    turns: Seq<Turn<E>>,
)
    ensures
        ({
            let whole = manager_dialogue::followed(operation, now, next);
            let count = operation.turns(turns);
            match operation.outcome(turns) {
                Some(value) => {
                    let left = next(value, state_after(now, turns, count));
                    &&& whole.questions(turns) == operation.questions(turns) + left.questions(
                        turns.skip(count as int),
                    )
                    &&& whole.outcome(turns) == left.outcome(turns.skip(count as int))
                    &&& whole.turns(turns) == count + left.turns(turns.skip(count as int))
                },
                None => {
                    &&& whole.questions(turns) == operation.questions(turns)
                    &&& whole.outcome(turns) is None
                },
            }
        }),
    decreases turns.len(),
{
    let whole = manager_dialogue::followed(operation, now, next);
    match operation {
        Dialogue::Return(value) => {
            assert(turns.skip(0) =~= turns);
            assert(Seq::<Call<Seq<char>>>::empty() + next(value, now).questions(turns) =~= next(
                value,
                now,
            ).questions(turns));
        },
        Dialogue::Ask(call, resumption) => {
            manager_dialogue::lemma_followed_ask(call, resumption, now, next);
            if turns.len() > 0 {
                let rest = turns.drop_first();
                let left = resumption(turns[0]);
                lemma_followed(left, turns[0].state, next, rest);
                let count = left.turns(rest);
                left.lemma_turns(rest);
                assert(rest.skip(count as int) =~= turns.skip(count as int + 1));
                match left.outcome(rest) {
                    Some(value) => {
                        assert(state_after(turns[0].state, rest, count) == state_after(
                            now,
                            turns,
                            count + 1,
                        ));
                        assert(whole.questions(turns) =~= operation.questions(turns) + next(
                            value,
                            state_after(now, turns, count + 1),
                        ).questions(turns.skip(count as int + 1)));
                    },
                    None => {},
                }
            }
        },
    }
}

} // verus!
