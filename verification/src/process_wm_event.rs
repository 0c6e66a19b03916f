//! Processing what the window manager itself reports, one call at a time.
use vstd::prelude::*;

use crate::auto_tiling::{auto_tiling_direction, auto_tiling_window_id};
use crate::call::{Action, Call, CommandCall, ManagerCall, Reply, Step, Turn};
use crate::config::UserConfig;
use crate::dialogue::Dialogue;
use crate::error::WmError;
use crate::event::WmEvent;
use crate::manager_dialogue;
use crate::manager_dialogue::ManagerDialogue;
use crate::state::{Container, WmState};
use crate::values::WindowState;
use crate::wm::WindowManager;

verus! {

/// Where the processing of an event of the window manager stands.
pub type WmEventStep<E> = Step<Call<String>, WmEventRun, Result<(), WmError<E>>>;

/// What is left of the processing that stands at `step`.
pub open spec fn wm_event_step_dialogue<E>(step: WmEventStep<E>) -> ManagerDialogue<
    E,
    Result<(), WmError<E>>,
> {
    match step {
        Step::Call(call, run) => Dialogue::Ask(call@, run.resumption()),
        Step::Finished(result) => Dialogue::Return(result),
    }
}

/// What the processing waits for.
#[derive(Clone, Debug, PartialEq, Eq)]
enum Stage {
    FindingWindow,
    Measuring { window: u64 },
    Turning,
}

/// An event that is processed, waiting for the reply to the last call.
#[derive(Clone, Debug, PartialEq, Eq)]
pub struct WmEventRun {
    stage: Stage,
}

impl WmEventRun {
    /// How the processing goes on from the reply.
    pub closed spec fn resumption<E>(self) -> spec_fn(Turn<E>) -> ManagerDialogue<
        E,
        Result<(), WmError<E>>,
    > {
        match self.stage {
            Stage::FindingWindow => manager_dialogue::after_window_lookup(),
            Stage::Measuring { window } => manager_dialogue::after_rect(window),
            Stage::Turning => manager_dialogue::after_last(()),
        }
    }

    /// Hands the reply to the processing, with the state and the configuration
    /// as they are when it comes.
    pub fn resume<E>(self, reply: Reply<E>, state: &WmState, config: &UserConfig) -> (step:
        WmEventStep<E>)
        ensures
            wm_event_step_dialogue(step) == self.resumption::<E>()(
                Turn { reply, state: *state, config: *config },
            ),
    {
        match self.stage {
            Stage::FindingWindow => match reply {
                Reply::Container(Some(container)) => if is_tiling_window(&container) {
                    let window: u64 = container.node;
                    Step::Call(
                        Call::Command(CommandCall::Act(Action::WindowRect { window })),
                        WmEventRun { stage: Stage::Measuring { window } },
                    )
                } else {
                    Step::Finished(Ok(()))
                },
                Reply::Container(None) => Step::Finished(Ok(())),
                Reply::Failed(error) => Step::Finished(Err(WmError::Host(error))),
                _ => Step::Finished(Err(WmError::UnexpectedReply)),
            },
            Stage::Measuring { window } => match reply {
                Reply::Rect(rect) => match auto_tiling_direction(rect.width, rect.height) {
                    Some(direction) => Step::Call(
                        Call::Command(
                            CommandCall::Act(
                                Action::SetTilingDirection { container: window, direction },
                            ),
                        ),
                        WmEventRun { stage: Stage::Turning },
                    ),
                    None => Step::Finished(Ok(())),
                },
                Reply::Failed(error) => Step::Finished(Err(WmError::Host(error))),
                _ => Step::Finished(Err(WmError::UnexpectedReply)),
            },
            Stage::Turning => match reply {
                Reply::Done => Step::Finished(Ok(())),
                Reply::Failed(error) => Step::Finished(Err(WmError::Host(error))),
                _ => Step::Finished(Err(WmError::UnexpectedReply)),
            },
        }
    }
}

/// Whether the container is a tiling window.
fn is_tiling_window(container: &Container) -> (is_tiling: bool)
    ensures
        is_tiling == manager_dialogue::is_tiling_window(*container),
{
    match container.facts.window {
        Some(window) => matches!(window.state, WindowState::Tiling),
        None => false,
    }
}

impl WindowManager {
    /// Processes an event of the window manager, up to the first call: lets the
    /// tiling direction follow the shape of the window that has focus.
    pub fn process_wm_event<E>(&self, event: &WmEvent, config: &UserConfig) -> (step:
        WmEventStep<E>)
        ensures
            wm_event_step_dialogue(step) == manager_dialogue::process_wm_event_dialogue::<E>(
                *event,
                *config,
            ),
    {
        if !config.auto_set_tiling_direction {
            return Step::Finished(Ok(()));
        }
        match auto_tiling_window_id(event) {
            Some(id) => Step::Call(
                Call::Manage(ManagerCall::ContainerById { id }),
                WmEventRun { stage: Stage::FindingWindow },
            ),
            None => Step::Finished(Ok(())),
        }
    }
}

} // verus!
