//! Running commands one after the other, one call at a time.
use vstd::prelude::*;

use crate::call::{Call, ManagerCall, Reply, Step, Turn};
use crate::command::InvokeCommand;
use crate::config::UserConfig;
use crate::dialogue::Dialogue;
use crate::error::WmError;
use crate::manager_dialogue;
use crate::manager_dialogue::ManagerDialogue;
use crate::run_command;
use crate::run_command::{CommandRun, CommandStep};
use crate::state::{Container, WmState};
use crate::values::ContainerId;
use crate::wm::WindowManager;

verus! {

/// Where a row of commands stands.
pub type CommandsStep<E> = Step<Call<String>, CommandsRun, Result<ContainerId, WmError<E>>>;

/// What is left of a row of commands that stands at `step`.
pub open spec fn commands_step_dialogue<E>(step: CommandsStep<E>) -> ManagerDialogue<
    E,
    Result<ContainerId, WmError<E>>,
> {
    match step {
        Step::Call(call, run) => Dialogue::Ask(call@, run.resumption()),
        Step::Finished(result) => Dialogue::Return(result),
    }
}

/// What a row of commands waits for. `rest` are the commands after the one
/// that runs or ran last.
#[derive(Clone, Debug, PartialEq, Eq)]
enum Stage {
    Running { rest: Vec<InvokeCommand>, subject: Container, run: CommandRun },
    Inspecting { rest: Vec<InvokeCommand>, subject: Container },
    Replacing { rest: Vec<InvokeCommand>, id: ContainerId },
}

/// A row of commands that waits for the reply to its last call.
#[derive(Clone, Debug, PartialEq, Eq)]
pub struct CommandsRun {
    stage: Stage,
}

impl CommandsRun {
    /// How the commands go on from the reply.
    pub closed spec fn resumption<E>(self) -> spec_fn(Turn<E>) -> ManagerDialogue<
        E,
        Result<ContainerId, WmError<E>>,
    > {
        match self.stage {
            Stage::Running { rest, subject, run } => manager_dialogue::lifted_resumption(
                run.resumption(),
                manager_dialogue::after_command(rest@, subject),
            ),
            Stage::Inspecting { rest, subject } => manager_dialogue::after_inspection(
                rest@,
                subject,
            ),
            Stage::Replacing { rest, id } => manager_dialogue::after_replacement(rest@, id),
        }
    }

    /// Hands the reply to the commands, with the state and the configuration
    /// as they are when it comes.
    pub fn resume<E>(self, reply: Reply<E>, state: &WmState, config: &UserConfig) -> (step:
        CommandsStep<E>)
        ensures
            commands_step_dialogue(step) == self.resumption::<E>()(
                Turn { reply, state: *state, config: *config },
            ),
    {
        match self.stage {
            Stage::Running { rest, subject, run } => follow_command(
                run.resume(reply),
                rest,
                subject,
            ),
            Stage::Inspecting { rest, subject } => match reply {
                Reply::Facts(facts) => if facts.is_detached {
                    let id = subject.id;
                    Step::Call(
                        Call::Manage(ManagerCall::ContainerById { id }),
                        CommandsRun { stage: Stage::Replacing { rest, id } },
                    )
                } else {
                    WindowManager::run_commands(
                        rest,
                        Container { node: subject.node, id: subject.id, facts },
                        state,
                        config,
                    )
                },
                Reply::Failed(error) => Step::Finished(Err(WmError::Host(error))),
                _ => Step::Finished(Err(WmError::UnexpectedReply)),
            },
            Stage::Replacing { rest, id } => match reply {
                Reply::Container(Some(subject)) => WindowManager::run_commands(
                    rest,
                    subject,
                    state,
                    config,
                ),
                Reply::Container(None) => Step::Finished(Ok(id)),
                Reply::Failed(error) => Step::Finished(Err(WmError::Host(error))),
                _ => Step::Finished(Err(WmError::UnexpectedReply)),
            },
        }
    }
}

/// Goes on from where a command of the row stands.
fn follow_command<E>(step: CommandStep<E>, rest: Vec<InvokeCommand>, subject: Container) -> (next:
    CommandsStep<E>)
    ensures
        commands_step_dialogue(next) == manager_dialogue::lifted(
            run_command::command_step_dialogue(step),
            manager_dialogue::after_command(rest@, subject),
        ),
{
    match step {
        Step::Call(call, run) => {
            proof {
                manager_dialogue::lemma_lifted_ask(
                    call@,
                    run.resumption::<E>(),
                    manager_dialogue::after_command(rest@, subject),
                );
            }
            Step::Call(
                Call::Command(call),
                CommandsRun { stage: Stage::Running { rest, subject, run } },
            )
        },
        Step::Finished(Ok(_)) => Step::Call(
            Call::Manage(ManagerCall::Inspect { node: subject.node }),
            CommandsRun { stage: Stage::Inspecting { rest, subject } },
        ),
        Step::Finished(Err(error)) => Step::Finished(Err(error)),
    }
}

impl WindowManager {
    /// Runs the commands one after the other, up to their first call. The
    /// subject is that of the first command; the result is the ID of the
    /// container that was the subject last.
    pub fn run_commands<E>(
        commands: Vec<InvokeCommand>,
        subject_container: Container,
        state: &WmState,
        config: &UserConfig,
    ) -> (step: CommandsStep<E>)
        ensures
            commands_step_dialogue(step) == manager_dialogue::commands_dialogue::<E>(
                commands@,
                subject_container,
                *state,
                *config,
            ),
    {
        let mut rest = commands;
        if rest.len() == 0 {
            Step::Finished(Ok(subject_container.id))
        } else {
            let command = rest.remove(0);
            assert(rest@ =~= commands@.drop_first());
            follow_command(
                WindowManager::run_command(&command, subject_container, state, config),
                rest,
                subject_container,
            )
        }
    }
}

} // verus!
