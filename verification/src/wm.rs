//! The window manager itself: how it starts and how it exits.
use vstd::prelude::*;

use crate::call::{Call, CleanupCall, ManagerCall, Reply, Step, Turn};
use crate::command::InvokeCommand;
use crate::config::UserConfig;
use crate::dialogue::Dialogue;
use crate::error::WmError;
use crate::manager_dialogue;
use crate::manager_dialogue::ManagerDialogue;
use crate::process_commands;
use crate::process_commands::{ProcessCommandsRun, ProcessCommandsStep};
use crate::state::WmState;
use crate::values::ContainerId;

verus! {

/// The window manager, with its state as it is at one moment.
#[derive(Clone, Copy, Debug, PartialEq, Eq, Structural)]
pub struct WindowManager {
    pub state: WmState,
}

// ---------------------------------------------------------------------------
// Starting.

/// Where the start of the window manager stands.
pub type StartStep<E> = Step<Call<String>, StartRun, Result<WindowManager, WmError<E>>>;

/// What is left of the start that stands at `step`.
pub open spec fn start_step_dialogue<E>(step: StartStep<E>) -> ManagerDialogue<
    E,
    Result<WindowManager, WmError<E>>,
> {
    match step {
        Step::Call(call, run) => Dialogue::Ask(call@, run.resumption()),
        Step::Finished(result) => Dialogue::Return(result),
    }
}

/// What the start waits for.
#[derive(Clone, Debug, PartialEq, Eq)]
enum StartStage {
    Populating,
    StartingTimer,
}

/// A start that waits for the reply to its last call.
#[derive(Clone, Debug, PartialEq, Eq)]
pub struct StartRun {
    stage: StartStage,
}

impl StartRun {
    /// How the start goes on from the reply.
    pub closed spec fn resumption<E>(self) -> spec_fn(Turn<E>) -> ManagerDialogue<
        E,
        Result<WindowManager, WmError<E>>,
    > {
        match self.stage {
            StartStage::Populating => manager_dialogue::after_populate(),
            StartStage::StartingTimer => manager_dialogue::after_start(),
        }
    }

    /// Hands the reply to the start, with the state and the configuration as
    /// they are when it comes.
    pub fn resume<E>(self, reply: Reply<E>, state: &WmState, config: &UserConfig) -> (step:
        StartStep<E>)
        ensures
            start_step_dialogue(step) == self.resumption::<E>()(
                Turn { reply, state: *state, config: *config },
            ),
    {
        match self.stage {
            StartStage::Populating => match reply {
                Reply::Done => Step::Call(
                    Call::Manage(ManagerCall::EnsureTimerRunning),
                    StartRun { stage: StartStage::StartingTimer },
                ),
                Reply::Failed(error) => Step::Finished(Err(WmError::Host(error))),
                _ => Step::Finished(Err(WmError::UnexpectedReply)),
            },
            StartStage::StartingTimer => match reply {
                Reply::Done => Step::Finished(Ok(WindowManager { state: *state })),
                Reply::Failed(error) => Step::Finished(Err(WmError::Host(error))),
                _ => Step::Finished(Err(WmError::UnexpectedReply)),
            },
        }
    }
}

// ---------------------------------------------------------------------------
// Exiting.

/// What an exiting window manager waits for: for a call of its shutdown, for a
/// warning, for an event from the queue of events, or for an event to be
/// published.
#[verifier::reject_recursive_types(E)]
pub enum Cleanup<E> {
    ShuttingDown(spec_fn(Turn<E>) -> ManagerDialogue<E, Result<ContainerId, WmError<E>>>),
    Warning,
    Taking,
    Publishing,
}

/// The call that an exiting window manager asks for next, and what it waits for
/// then; or nothing, at the end.
pub type CleanupNext<E> = Option<(CleanupCall<Seq<char>, E>, Cleanup<E>)>;

/// Takes the next event.
pub open spec fn take_event<E>() -> CleanupNext<E> {
    Some((CleanupCall::Make(Call::Manage(ManagerCall::NextEvent)), Cleanup::Taking))
}

/// Warns where the shutdown commands failed. Then, or else at once, the
/// remaining events are published.
pub open spec fn after_shutdown<E>(result: Result<ContainerId, WmError<E>>) -> CleanupNext<E> {
    match result {
        Ok(_) => take_event(),
        Err(error) => Some((CleanupCall::WarnOfShutdown(error), Cleanup::Warning)),
    }
}

/// Goes on with the shutdown.
pub open spec fn shut_down<E>(
    shutdown: ManagerDialogue<E, Result<ContainerId, WmError<E>>>,
) -> CleanupNext<E> {
    match shutdown {
        Dialogue::Ask(call, resumption) => Some(
            (CleanupCall::Make(call), Cleanup::ShuttingDown(resumption)),
        ),
        Dialogue::Return(result) => after_shutdown(result),
    }
}

/// Goes on from a reply. Every event that is taken is published, whatever comes
/// of it, until no event is left.
pub open spec fn cleanup_next<E>(cleanup: Cleanup<E>, turn: Turn<E>) -> CleanupNext<E> {
    match cleanup {
        Cleanup::ShuttingDown(resumption) => shut_down(resumption(turn)),
        Cleanup::Warning => take_event(),
        Cleanup::Taking => match turn.reply {
            Reply::Event(Some(ticket)) => Some(
                (
                    CleanupCall::Make(Call::Manage(ManagerCall::PublishEvent { ticket })),
                    Cleanup::Publishing,
                ),
            ),
            _ => None,
        },
        Cleanup::Publishing => take_event(),
    }
}

/// Where the exit of the window manager stands.
pub type CleanupStep<E> = Step<CleanupCall<String, E>, CleanupRun, ()>;

/// What an exit that stands at `step` asks for and waits for.
pub open spec fn cleanup_step_next<E>(step: CleanupStep<E>) -> CleanupNext<E> {
    match step {
        Step::Call(call, run) => Some((call@, run.awaited())),
        Step::Finished(_) => None,
    }
}

/// What the exit waits for.
#[derive(Clone, Debug, PartialEq, Eq)]
enum CleanupStage {
    EmittingExit { commands: Vec<InvokeCommand> },
    Unpausing { commands: Vec<InvokeCommand> },
    Running { run: ProcessCommandsRun },
    Warning,
    Taking,
    Publishing,
}

/// An exit that waits for the reply to its last call.
#[derive(Clone, Debug, PartialEq, Eq)]
pub struct CleanupRun {
    stage: CleanupStage,
}

impl CleanupRun {
    /// What the exit waits for.
    pub closed spec fn awaited<E>(self) -> Cleanup<E> {
        match self.stage {
            CleanupStage::EmittingExit { commands } => Cleanup::ShuttingDown(
                manager_dialogue::after_exiting(commands@),
            ),
            CleanupStage::Unpausing { commands } => Cleanup::ShuttingDown(
                manager_dialogue::after_unpause(commands@),
            ),
            CleanupStage::Running { run } => Cleanup::ShuttingDown(run.resumption()),
            CleanupStage::Warning => Cleanup::Warning,
            CleanupStage::Taking => Cleanup::Taking,
            CleanupStage::Publishing => Cleanup::Publishing,
        }
    }

    /// Hands the reply to the exit, with the state and the configuration as
    /// they are when it comes.
    pub fn resume<E>(self, reply: Reply<E>, state: &WmState, config: &UserConfig) -> (step:
        CleanupStep<E>)
        ensures
            cleanup_step_next(step) == cleanup_next::<E>(
                self.awaited(),
                Turn { reply, state: *state, config: *config },
            ),
    {
        match self.stage {
            CleanupStage::EmittingExit { commands } => Step::Call(
                CleanupCall::Make(Call::Manage(ManagerCall::Unpause)),
                CleanupRun { stage: CleanupStage::Unpausing { commands } },
            ),
            CleanupStage::Unpausing { commands } => follow_shutdown(
                WindowManager { state: *state }.process_commands(commands, None, config),
            ),
            CleanupStage::Running { run } => follow_shutdown(run.resume(reply, state, config)),
            CleanupStage::Warning => next_event(),
            CleanupStage::Taking => match reply {
                Reply::Event(Some(ticket)) => Step::Call(
                    CleanupCall::Make(Call::Manage(ManagerCall::PublishEvent { ticket })),
                    CleanupRun { stage: CleanupStage::Publishing },
                ),
                _ => Step::Finished(()),
            },
            CleanupStage::Publishing => next_event(),
        }
    }
}

/// Takes the next event.
fn next_event<E>() -> (step: CleanupStep<E>)
    ensures
        cleanup_step_next(step) == take_event::<E>(),
{
    Step::Call(
        CleanupCall::Make(Call::Manage(ManagerCall::NextEvent)),
        CleanupRun { stage: CleanupStage::Taking },
    )
}

/// Goes on from where the shutdown commands stand.
fn follow_shutdown<E>(step: ProcessCommandsStep<E>) -> (next: CleanupStep<E>)
    ensures
        cleanup_step_next(next) == shut_down(
            process_commands::process_commands_step_dialogue(step),
        ),
{
    match step {
        Step::Call(call, run) => Step::Call(
            CleanupCall::Make(call),
            CleanupRun { stage: CleanupStage::Running { run } },
        ),
        Step::Finished(Ok(_)) => next_event(),
        Step::Finished(Err(error)) => Step::Call(
            CleanupCall::WarnOfShutdown(error),
            CleanupRun { stage: CleanupStage::Warning },
        ),
    }
}

impl WindowManager {
    /// Starts the window manager, up to the first call: fills its state, then
    /// starts the animation timer in case that created any animations.
    pub fn new<E>() -> (step: StartStep<E>)
        ensures
            start_step_dialogue(step) == manager_dialogue::new_dialogue::<E>(),
    {
        Step::Call(
            Call::Manage(ManagerCall::Populate),
            StartRun { stage: StartStage::Populating },
        )
    }

    /// Runs cleanup tasks when the window manager is exiting, up to the first
    /// call. The commands are the user's shutdown commands.
    pub fn cleanup<E>(&self, shutdown_commands: Vec<InvokeCommand>) -> (step: CleanupStep<E>)
        ensures
            cleanup_step_next(step) == shut_down(
                manager_dialogue::shutdown_dialogue::<E>(shutdown_commands@),
            ),
    {
        Step::Call(
            CleanupCall::Make(Call::Manage(ManagerCall::EmitApplicationExiting)),
            CleanupRun { stage: CleanupStage::EmittingExit { commands: shutdown_commands } },
        )
    }
}

} // verus!
