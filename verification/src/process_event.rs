//! Processing what the platform reports, one call at a time.
use vstd::prelude::*;

use crate::call::{Call, Handler, ManagerCall, Reply, Step, Turn};
use crate::command::InvokeCommand;
use crate::config::UserConfig;
use crate::dialogue::Dialogue;
use crate::error::WmError;
use crate::event::{Keybinding, KeybindingConfig, PlatformEvent, WindowEvent};
use crate::manager_dialogue;
use crate::manager_dialogue::ManagerDialogue;
use crate::process_commands;
use crate::process_commands::{ProcessCommandsRun, ProcessCommandsStep};
use crate::state::WmState;
use crate::wm::WindowManager;

verus! {

/// Where the processing of an event stands.
pub type EventStep<E> = Step<Call<String>, EventRun, Result<(), WmError<E>>>;

/// What is left of the processing that stands at `step`.
pub open spec fn event_step_dialogue<E>(step: EventStep<E>) -> ManagerDialogue<
    E,
    Result<(), WmError<E>>,
> {
    match step {
        Step::Call(call, run) => Dialogue::Ask(call@, run.resumption()),
        Step::Finished(result) => Dialogue::Return(result),
    }
}

/// What the processing of an event waits for.
#[derive(Clone, Debug, PartialEq, Eq)]
enum Stage {
    Matching { keybinding: Keybinding },
    Running { run: ProcessCommandsRun },
    Handling { starts_timer: bool },
    Syncing { starts_timer: bool },
    Ending,
}

/// An event that is processed, waiting for the reply to the last call.
#[derive(Clone, Debug, PartialEq, Eq)]
pub struct EventRun {
    stage: Stage,
}

impl EventRun {
    /// How the processing goes on from the reply.
    pub closed spec fn resumption<E>(self) -> spec_fn(Turn<E>) -> ManagerDialogue<
        E,
        Result<(), WmError<E>>,
    > {
        match self.stage {
            Stage::Matching { keybinding } => manager_dialogue::after_keybindings(keybinding.keys@),
            Stage::Running { run } => manager_dialogue::followed_resumption(
                run.resumption(),
                manager_dialogue::without_subject(),
            ),
            Stage::Handling { starts_timer } => manager_dialogue::after_handler(starts_timer),
            Stage::Syncing { starts_timer } => manager_dialogue::after_sync((), starts_timer),
            Stage::Ending => manager_dialogue::after_last(()),
        }
    }

    /// Hands the reply to the processing, with the state and the configuration
    /// as they are when it comes.
    pub fn resume<E>(self, reply: Reply<E>, state: &WmState, config: &UserConfig) -> (step:
        EventStep<E>)
        ensures
            event_step_dialogue(step) == self.resumption::<E>()(
                Turn { reply, state: *state, config: *config },
            ),
    {
        match self.stage {
            Stage::Matching { keybinding } => match reply {
                Reply::Keybindings(configs) => match take_bound_commands(configs, &keybinding) {
                    Some(commands) => follow_commands(
                        WindowManager { state: *state }.process_commands(commands, None, config),
                        state,
                    ),
                    None => Step::Finished(Ok(())),
                },
                Reply::Failed(error) => Step::Finished(Err(WmError::Host(error))),
                _ => Step::Finished(Err(WmError::UnexpectedReply)),
            },
            Stage::Running { run } => follow_commands(run.resume(reply, state, config), state),
            Stage::Handling { starts_timer } => match reply {
                Reply::Done => if !state.is_paused && state.has_pending_changes {
                    Step::Call(
                        Call::Manage(ManagerCall::PlatformSync),
                        EventRun { stage: Stage::Syncing { starts_timer } },
                    )
                } else {
                    wrap_up(starts_timer)
                },
                Reply::Failed(error) => Step::Finished(Err(WmError::Host(error))),
                _ => Step::Finished(Err(WmError::UnexpectedReply)),
            },
            Stage::Syncing { starts_timer } => match reply {
                Reply::Done => wrap_up(starts_timer),
                Reply::Failed(error) => Step::Finished(Err(WmError::Host(error))),
                _ => Step::Finished(Err(WmError::UnexpectedReply)),
            },
            Stage::Ending => match reply {
                Reply::Done => Step::Finished(Ok(())),
                Reply::Failed(error) => Step::Finished(Err(WmError::Host(error))),
                _ => Step::Finished(Err(WmError::UnexpectedReply)),
            },
        }
    }
}

/// Starts the animation timer where that is wanted.
fn wrap_up<E>(starts_timer: bool) -> (step: EventStep<E>)
    ensures
        event_step_dialogue(step) == manager_dialogue::wrap_up::<E, ()>((), starts_timer),
{
    if starts_timer {
        Step::Call(
            Call::Manage(ManagerCall::EnsureTimerRunning),
            EventRun { stage: Stage::Ending },
        )
    } else {
        Step::Finished(Ok(()))
    }
}

/// Goes on from where the commands of a keybinding stand.
fn follow_commands<E>(step: ProcessCommandsStep<E>, state: &WmState) -> (next: EventStep<E>)
    ensures
        event_step_dialogue(next) == manager_dialogue::followed(
            process_commands::process_commands_step_dialogue(step),
            *state,
            manager_dialogue::without_subject::<E>(),
        ),
{
    match step {
        Step::Call(call, run) => {
            proof {
                manager_dialogue::lemma_followed_ask(
                    call@,
                    run.resumption::<E>(),
                    *state,
                    manager_dialogue::without_subject::<E>(),
                );
            }
            Step::Call(call, EventRun { stage: Stage::Running { run } })
        },
        Step::Finished(Ok(_)) => Step::Finished(Ok(())),
        Step::Finished(Err(error)) => Step::Finished(Err(error)),
    }
}

/// Whether two key combinations are of the same keys in the same order.
fn is_same_keybinding(left: &Keybinding, right: &Keybinding) -> (is_same: bool)
    ensures
        is_same == (left.keys@ == right.keys@),
{
    if left.keys.len() != right.keys.len() {
        return false;
    }
    let mut count: usize = 0;
    while count < left.keys.len()
        invariant
            count <= left.keys.len(),
            left.keys.len() == right.keys.len(),
            forall|i: int| 0 <= i < count ==> left.keys@[i] == right.keys@[i],
        decreases left.keys.len() - count,
    {
        if left.keys[count] != right.keys[count] {
            return false;
        }
        count = count + 1;
    }
    assert(left.keys@ =~= right.keys@);
    true
}

/// Whether the keys are bound to the commands of `config`.
fn is_bound(config: &KeybindingConfig, keybinding: &Keybinding) -> (is_bound: bool)
    ensures
        is_bound == manager_dialogue::is_bound(*config, keybinding.keys@),
        is_bound <==> exists|binding: int|
            0 <= binding < config.bindings@.len() && (#[trigger] config.bindings@[binding]).keys@
                == keybinding.keys@,
{
    let mut count: usize = 0;
    while count < config.bindings.len()
        invariant
            count <= config.bindings.len(),
            forall|i: int|
                0 <= i < count ==> (#[trigger] config.bindings@[i]).keys@ != keybinding.keys@,
        decreases config.bindings.len() - count,
    {
        if is_same_keybinding(&config.bindings[count], keybinding) {
            assert(config.bindings@[count as int].keys@ == keybinding.keys@);
            return true;
        }
        count = count + 1;
    }
    false
}

/// The commands of the first of `configs` that the keys are bound to.
fn take_bound_commands(configs: Vec<KeybindingConfig>, keybinding: &Keybinding) -> (commands:
    Option<Vec<InvokeCommand>>)
    ensures
        commands is Some <==> manager_dialogue::bound_commands(configs@, keybinding.keys@) is Some,
        commands is Some ==> Some(commands->0@) == manager_dialogue::bound_commands(
            configs@,
            keybinding.keys@,
        ),
{
    let mut configs_left = configs;
    let mut count: usize = 0;
    assert(configs@.skip(0) =~= configs@);
    while count < configs_left.len()
        invariant
            count <= configs_left.len(),
            configs_left@ == configs@,
            manager_dialogue::bound_commands(configs@, keybinding.keys@)
                == manager_dialogue::bound_commands(configs@.skip(count as int), keybinding.keys@),
        decreases configs_left.len() - count,
    {
        assert(configs@.skip(count as int).drop_first() =~= configs@.skip(count + 1));
        if is_bound(&configs_left[count], keybinding) {
            let config = configs_left.remove(count);
            return Some(config.commands);
        }
        count = count + 1;
    }
    None
}

/// The handler of an event of a window.
fn window_handler(event: WindowEvent) -> (handler: Handler)
    ensures
        manager_dialogue::handler_of(PlatformEvent::Window(event)) == Some(handler),
{
    match event {
        WindowEvent::Focused { window } => Handler::WindowFocused { window },
        WindowEvent::Shown { window } => Handler::WindowShown { window },
        WindowEvent::Hidden { window } => Handler::WindowHidden { window },
        WindowEvent::MovedOrResized { window, is_interactive_start, is_interactive_end } =>
            Handler::WindowMovedOrResized { window, is_interactive_start, is_interactive_end },
        WindowEvent::Minimized { window } => Handler::WindowMinimized { window },
        WindowEvent::MinimizeEnded { window } => Handler::WindowMinimizeEnded { window },
        WindowEvent::TitleChanged { window } => Handler::WindowTitleChanged { window },
        WindowEvent::Destroyed { window_id } => Handler::WindowDestroyed { window_id },
    }
}

/// Lets the handler work, then brings the platform up to date.
fn handle<E>(handler: Handler, starts_timer: bool) -> (step: EventStep<E>)
    ensures
        event_step_dialogue(step) == manager_dialogue::handle::<E>(handler, starts_timer),
{
    Step::Call(
        Call::Manage(ManagerCall::Handle(handler)),
        EventRun { stage: Stage::Handling { starts_timer } },
    )
}

impl WindowManager {
    /// Processes an event of the platform, up to the first call.
    pub fn process_event<E>(&self, event: PlatformEvent) -> (step: EventStep<E>)
        ensures
            event_step_dialogue(step) == manager_dialogue::process_event_dialogue::<E>(
                event,
                self.state,
            ),
    {
        match event {
            PlatformEvent::DisplaySettingsChanged => handle(Handler::DisplaySettingsChanged, true),
            PlatformEvent::Keybinding(keybinding) => Step::Call(
                Call::Manage(ManagerCall::ActiveKeybindings { is_paused: self.state.is_paused }),
                EventRun { stage: Stage::Matching { keybinding } },
            ),
            PlatformEvent::Mouse { ticket } => handle(Handler::MouseMove { ticket }, true),
            PlatformEvent::Window(window_event) => handle(window_handler(window_event), true),
        }
    }

    /// Processes a hook-driven window drag lifecycle event (grab-and-move), up
    /// to the first call.
    ///
    /// Runs the same handler a native interactive move produces, so that a drag
    /// and the tiling reflow behave as with a title-bar drag.
    pub fn process_window_drag<E>(&self, native_window: u64, is_start: bool) -> (step: EventStep<E>)
        ensures
            event_step_dialogue(step) == manager_dialogue::process_window_drag_dialogue::<E>(
                native_window,
                is_start,
            ),
    {
        handle(
            Handler::WindowMovedOrResized {
                window: native_window,
                is_interactive_start: is_start,
                is_interactive_end: !is_start,
            },
            false,
        )
    }

    /// Updates all active animations and redraws windows that are animating.
    pub fn update_animations<E>(&self) -> (step: EventStep<E>)
        ensures
            event_step_dialogue(step) == manager_dialogue::update_animations_dialogue::<E>(),
    {
        Step::Call(
            Call::Manage(ManagerCall::UpdateAnimations),
            EventRun { stage: Stage::Ending },
        )
    }
}

} // verus!
