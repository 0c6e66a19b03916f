//! Processing commands, from the search for their subject to the update of the
//! platform, one call at a time.
use vstd::prelude::*;

use crate::call::{Call, ManagerCall, Reply, Step, Turn};
use crate::command::InvokeCommand;
use crate::config::UserConfig;
use crate::dialogue::Dialogue;
use crate::error::WmError;
use crate::manager_dialogue;
use crate::manager_dialogue::ManagerDialogue;
use crate::run_commands;
use crate::run_commands::{CommandsRun, CommandsStep};
use crate::state::{Container, WmState};
use crate::values::ContainerId;
use crate::wm::WindowManager;

verus! {

/// Where the processing of commands stands.
pub type ProcessCommandsStep<E> = Step<
    Call<String>,
    ProcessCommandsRun,
    Result<ContainerId, WmError<E>>,
>;

/// What is left of the processing that stands at `step`.
pub open spec fn process_commands_step_dialogue<E>(
    step: ProcessCommandsStep<E>,
) -> ManagerDialogue<E, Result<ContainerId, WmError<E>>> {
    match step {
        Step::Call(call, run) => Dialogue::Ask(call@, run.resumption()),
        Step::Finished(result) => Dialogue::Return(result),
    }
}

/// What the processing of commands waits for.
#[derive(Clone, Debug, PartialEq, Eq)]
enum Stage {
    FindingSubject { commands: Vec<InvokeCommand>, id: ContainerId },
    Running { run: CommandsRun },
    Syncing { id: ContainerId },
    StartingTimer { id: ContainerId },
}

/// Commands that are processed, waiting for the reply to the last call.
#[derive(Clone, Debug, PartialEq, Eq)]
pub struct ProcessCommandsRun {
    stage: Stage,
}

impl ProcessCommandsRun {
    /// How the processing goes on from the reply.
    pub closed spec fn resumption<E>(self) -> spec_fn(Turn<E>) -> ManagerDialogue<
        E,
        Result<ContainerId, WmError<E>>,
    > {
        match self.stage {
            Stage::FindingSubject { commands, id } => manager_dialogue::after_subject(
                commands@,
                id,
            ),
            Stage::Running { run } => manager_dialogue::followed_resumption(
                run.resumption(),
                manager_dialogue::after_commands(),
            ),
            Stage::Syncing { id } => manager_dialogue::after_sync(id, true),
            Stage::StartingTimer { id } => manager_dialogue::after_last(id),
        }
    }

    /// Hands the reply to the processing, with the state and the configuration
    /// as they are when it comes.
    pub fn resume<E>(self, reply: Reply<E>, state: &WmState, config: &UserConfig) -> (step:
        ProcessCommandsStep<E>)
        ensures
            process_commands_step_dialogue(step) == self.resumption::<E>()(
                Turn { reply, state: *state, config: *config },
            ),
    {
        match self.stage {
            Stage::FindingSubject { commands, id } => match reply {
                Reply::Container(Some(subject)) => run_and_sync(commands, subject, state, config),
                Reply::Container(None) => Step::Finished(Err(WmError::ContainerNotFound { id })),
                Reply::Failed(error) => Step::Finished(Err(WmError::Host(error))),
                _ => Step::Finished(Err(WmError::UnexpectedReply)),
            },
            Stage::Running { run } => follow_commands(run.resume(reply, state, config), state),
            Stage::Syncing { id } => match reply {
                Reply::Done => start_timer(id),
                Reply::Failed(error) => Step::Finished(Err(WmError::Host(error))),
                _ => Step::Finished(Err(WmError::UnexpectedReply)),
            },
            Stage::StartingTimer { id } => match reply {
                Reply::Done => Step::Finished(Ok(id)),
                Reply::Failed(error) => Step::Finished(Err(WmError::Host(error))),
                _ => Step::Finished(Err(WmError::UnexpectedReply)),
            },
        }
    }
}

/// Starts the animation timer, the last thing to do.
fn start_timer<E>(id: ContainerId) -> (step: ProcessCommandsStep<E>)
    ensures
        process_commands_step_dialogue(step) == manager_dialogue::wrap_up::<E, ContainerId>(
            id,
            true,
        ),
{
    Step::Call(
        Call::Manage(ManagerCall::EnsureTimerRunning),
        ProcessCommandsRun { stage: Stage::StartingTimer { id } },
    )
}

/// Goes on from where the commands stand.
fn follow_commands<E>(step: CommandsStep<E>, state: &WmState) -> (next: ProcessCommandsStep<E>)
    ensures
        process_commands_step_dialogue(next) == manager_dialogue::followed(
            run_commands::commands_step_dialogue(step),
            *state,
            manager_dialogue::after_commands::<E>(),
        ),
{
    match step {
        Step::Call(call, run) => {
            proof {
                manager_dialogue::lemma_followed_ask(
                    call@,
                    run.resumption::<E>(),
                    *state,
                    manager_dialogue::after_commands::<E>(),
                );
            }
            Step::Call(call, ProcessCommandsRun { stage: Stage::Running { run } })
        },
        Step::Finished(Ok(id)) => if state.has_pending_changes {
            Step::Call(
                Call::Manage(ManagerCall::PlatformSync),
                ProcessCommandsRun { stage: Stage::Syncing { id } },
            )
        } else {
            start_timer(id)
        },
        Step::Finished(Err(error)) => Step::Finished(Err(error)),
    }
}

/// Runs the commands with that subject, then brings the platform up to date.
fn run_and_sync<E>(
    commands: Vec<InvokeCommand>,
    subject: Container,
    state: &WmState,
    config: &UserConfig,
) -> (step: ProcessCommandsStep<E>)
    ensures
        process_commands_step_dialogue(step) == manager_dialogue::run_and_sync::<E>(
            commands@,
            subject,
            *state,
            *config,
        ),
{
    follow_commands(WindowManager::run_commands(commands, subject, state, config), state)
}

impl WindowManager {
    /// Runs the commands with the container of that ID as their subject, or
    /// with the focused container where none is given, up to the first call.
    /// The result is the ID of the container that was the subject last.
    pub fn process_commands<E>(
        &self,
        commands: Vec<InvokeCommand>,
        subject_container_id: Option<ContainerId>,
        config: &UserConfig,
    ) -> (step: ProcessCommandsStep<E>)
        ensures
            process_commands_step_dialogue(step)
                == manager_dialogue::process_commands_dialogue::<E>(
                commands@,
                subject_container_id,
                self.state,
                *config,
            ),
    {
        match subject_container_id {
            Some(id) => Step::Call(
                Call::Manage(ManagerCall::ContainerById { id }),
                ProcessCommandsRun { stage: Stage::FindingSubject { commands, id } },
            ),
            None => match self.state.focused_container {
                Some(subject) => run_and_sync(commands, subject, &self.state, config),
                None => Step::Finished(Err(WmError::NoSubjectContainer)),
            },
        }
    }
}

} // verus!
