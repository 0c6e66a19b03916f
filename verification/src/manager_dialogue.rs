//! What the window manager asks for around its commands, and how it goes on
//! from the replies.
use vstd::prelude::*;

use crate::auto_tiling;
use crate::call::{Action, Call, CommandCall, Handler, ManagerCall, Reply, Turn};
use crate::command::InvokeCommand;
use crate::command_dialogue;
use crate::command_dialogue::CommandDialogue;
use crate::config::UserConfig;
use crate::dialogue::Dialogue;
use crate::error::WmError;
use crate::event::{KeybindingConfig, PlatformEvent, WindowEvent, WmEvent};
use crate::state::{Container, WmState};
use crate::values::ContainerId;
use crate::wm::WindowManager;

verus! {

/// What an operation of the window manager does: the calls that it asks for,
/// and how it ends.
pub type ManagerDialogue<E, T> = Dialogue<Call<Seq<char>>, Turn<E>, T>;

/// Asks the window manager's own call.
pub open spec fn manage<E, T>(
    call: ManagerCall,
    next: spec_fn(Turn<E>) -> ManagerDialogue<E, T>,
) -> ManagerDialogue<E, T> {
    Dialogue::Ask(Call::Manage(call), next)
}

/// Asks for a command's action.
pub open spec fn perform<E, T>(
    action: Action,
    next: spec_fn(Turn<E>) -> ManagerDialogue<E, T>,
) -> ManagerDialogue<E, T> {
    Dialogue::Ask(Call::Command(CommandCall::Act(action)), next)
}

/// The end of an operation on a reply that is none of `Reply::Done`'s kind.
pub open spec fn refused<E, T>(reply: Reply<E>) -> ManagerDialogue<E, Result<T, WmError<E>>> {
    match reply {
        Reply::Failed(error) => Dialogue::Return(Err(WmError::Host(error))),
        _ => Dialogue::Return(Err(WmError::UnexpectedReply)),
    }
}

/// Runs a command, then goes on from its result.
pub open spec fn lifted<E, T>(
    command: CommandDialogue<E>,
    next: spec_fn(Result<(), WmError<E>>) -> ManagerDialogue<E, T>,
) -> ManagerDialogue<E, T>
    decreases command,
{
    match command {
        Dialogue::Return(result) => next(result),
        Dialogue::Ask(call, resumption) => Dialogue::Ask(
            Call::Command(call),
            |turn: Turn<E>| lifted(resumption(turn.reply), next),
        ),
    }
}

/// What is left of a lifted command at a reply.
pub open spec fn lifted_resumption<E, T>(
    resumption: spec_fn(Reply<E>) -> CommandDialogue<E>,
    next: spec_fn(Result<(), WmError<E>>) -> ManagerDialogue<E, T>,
) -> spec_fn(Turn<E>) -> ManagerDialogue<E, T> {
    |turn: Turn<E>| lifted(resumption(turn.reply), next)
}

/// A lifted command asks what the command asks.
pub proof fn lemma_lifted_ask<E, T>(
    call: CommandCall<Seq<char>>,
    resumption: spec_fn(Reply<E>) -> CommandDialogue<E>,
    next: spec_fn(Result<(), WmError<E>>) -> ManagerDialogue<E, T>,
)
    ensures
        lifted(Dialogue::Ask(call, resumption), next) == Dialogue::Ask(
            Call::Command(call),
            lifted_resumption(resumption, next),
        ),
{
    let command: CommandDialogue<E> = Dialogue::Ask(call, resumption);
    assert(lifted(command, next)->Ask_1 =~= lifted_resumption(resumption, next));
}

/// Runs an operation, then goes on from its result and the state as it is when
/// the operation ends. `now` is the state as it is when the operation starts.
pub open spec fn followed<E, T, U>(
    operation: ManagerDialogue<E, T>,
    now: WmState,
    next: spec_fn(T, WmState) -> ManagerDialogue<E, U>,
) -> ManagerDialogue<E, U>
    decreases operation,
{
    match operation {
        Dialogue::Return(value) => next(value, now),
        Dialogue::Ask(call, resumption) => Dialogue::Ask(
            call,
            |turn: Turn<E>| followed(resumption(turn), turn.state, next),
        ),
    }
}

/// What is left of a followed operation at a reply.
pub open spec fn followed_resumption<E, T, U>(
    resumption: spec_fn(Turn<E>) -> ManagerDialogue<E, T>,
    next: spec_fn(T, WmState) -> ManagerDialogue<E, U>,
) -> spec_fn(Turn<E>) -> ManagerDialogue<E, U> {
    |turn: Turn<E>| followed(resumption(turn), turn.state, next)
}

/// A followed operation asks what the operation asks.
pub proof fn lemma_followed_ask<E, T, U>(
    call: Call<Seq<char>>,
    resumption: spec_fn(Turn<E>) -> ManagerDialogue<E, T>,
    now: WmState,
    next: spec_fn(T, WmState) -> ManagerDialogue<E, U>,
)
    ensures
        followed(Dialogue::Ask(call, resumption), now, next) == Dialogue::Ask(
            call,
            followed_resumption(resumption, next),
        ),
{
    let operation: ManagerDialogue<E, T> = Dialogue::Ask(call, resumption);
    assert(followed(operation, now, next)->Ask_1 =~= followed_resumption(resumption, next));
}

// ---------------------------------------------------------------------------
// Commands in a row.

/// Runs the commands one after the other, up to the first that fails, and ends
/// with the ID of the container that was the subject last.
///
/// Where a command takes its subject out of the tree, the container that now
/// has the subject's ID takes its place: a window that went from tiling to
/// floating, for one. Where there is none, the remaining commands are left.
pub open spec fn commands_dialogue<E>(
    commands: Seq<InvokeCommand>,
    subject: Container,
    state: WmState,
    config: UserConfig,
) -> ManagerDialogue<E, Result<ContainerId, WmError<E>>>
    decreases commands.len(), 0int,
{
    if commands.len() == 0 {
        Dialogue::Return(Ok(subject.id))
    } else {
        lifted(
            command_dialogue::run_command_dialogue(commands[0], subject, state, config),
            after_command(commands.drop_first(), subject),
        )
    }
}

pub open spec fn after_command<E>(rest: Seq<InvokeCommand>, subject: Container) -> spec_fn(
    Result<(), WmError<E>>,
) -> ManagerDialogue<E, Result<ContainerId, WmError<E>>>
    decreases rest.len(), 3int,
{
    |result: Result<(), WmError<E>>|
        match result {
            Ok(_) => manage(
                ManagerCall::Inspect { node: subject.node },
                after_inspection(rest, subject),
            ),
            Err(error) => Dialogue::Return(Err(error)),
        }
}

pub open spec fn after_inspection<E>(rest: Seq<InvokeCommand>, subject: Container) -> spec_fn(
    Turn<E>,
) -> ManagerDialogue<E, Result<ContainerId, WmError<E>>>
    decreases rest.len(), 2int,
{
    |turn: Turn<E>|
        match turn.reply {
            Reply::Facts(facts) => if facts.is_detached {
                manage(
                    ManagerCall::ContainerById { id: subject.id },
                    after_replacement(rest, subject.id),
                )
            } else {
                commands_dialogue(
                    rest,
                    Container { node: subject.node, id: subject.id, facts },
                    turn.state,
                    turn.config,
                )
            },
            reply => refused(reply),
        }
}

pub open spec fn after_replacement<E>(rest: Seq<InvokeCommand>, id: ContainerId) -> spec_fn(
    Turn<E>,
) -> ManagerDialogue<E, Result<ContainerId, WmError<E>>>
    decreases rest.len(), 1int,
{
    |turn: Turn<E>|
        match turn.reply {
            Reply::Container(Some(subject)) => commands_dialogue(
                rest,
                subject,
                turn.state,
                turn.config,
            ),
            Reply::Container(None) => Dialogue::Return(Ok(id)),
            reply => refused(reply),
        }
}

// ---------------------------------------------------------------------------
// Bringing the platform up to date.

/// Starts the animation timer where that is wanted, then ends with `value`.
pub open spec fn wrap_up<E, T>(value: T, starts_timer: bool) -> ManagerDialogue<
    E,
    Result<T, WmError<E>>,
> {
    if starts_timer {
        manage(ManagerCall::EnsureTimerRunning, after_last(value))
    } else {
        Dialogue::Return(Ok(value))
    }
}

/// Ends with `value`.
pub open spec fn after_last<E, T>(value: T) -> spec_fn(Turn<E>) -> ManagerDialogue<
    E,
    Result<T, WmError<E>>,
> {
    |turn: Turn<E>|
        match turn.reply {
            Reply::Done => Dialogue::Return(Ok(value)),
            reply => refused(reply),
        }
}

/// Tells the platform of the queued changes where that is due, then wraps up.
pub open spec fn sync_and_wrap_up<E, T>(
    value: T,
    is_due: bool,
    starts_timer: bool,
) -> ManagerDialogue<E, Result<T, WmError<E>>> {
    if is_due {
        manage(ManagerCall::PlatformSync, after_sync(value, starts_timer))
    } else {
        wrap_up(value, starts_timer)
    }
}

pub open spec fn after_sync<E, T>(value: T, starts_timer: bool) -> spec_fn(
    Turn<E>,
) -> ManagerDialogue<E, Result<T, WmError<E>>> {
    |turn: Turn<E>|
        match turn.reply {
            Reply::Done => wrap_up(value, starts_timer),
            reply => refused(reply),
        }
}

// ---------------------------------------------------------------------------
// Processing commands.

/// Runs the commands with the container of that ID, or else with the focused
/// one. Then the platform is told of the changes that are queued, if any, and
/// the animation timer is started.
pub open spec fn process_commands_dialogue<E>(
    commands: Seq<InvokeCommand>,
    subject_id: Option<ContainerId>,
    state: WmState,
    config: UserConfig,
) -> ManagerDialogue<E, Result<ContainerId, WmError<E>>> {
    match subject_id {
        Some(id) => manage(ManagerCall::ContainerById { id }, after_subject(commands, id)),
        None => match state.focused_container {
            Some(subject) => run_and_sync(commands, subject, state, config),
            None => Dialogue::Return(Err(WmError::NoSubjectContainer)),
        },
    }
}

pub open spec fn after_subject<E>(commands: Seq<InvokeCommand>, id: ContainerId) -> spec_fn(
    Turn<E>,
) -> ManagerDialogue<E, Result<ContainerId, WmError<E>>> {
    |turn: Turn<E>|
        match turn.reply {
            Reply::Container(Some(subject)) => run_and_sync(
                commands,
                subject,
                turn.state,
                turn.config,
            ),
            Reply::Container(None) => Dialogue::Return(Err(WmError::ContainerNotFound { id })),
            reply => refused(reply),
        }
}

pub open spec fn run_and_sync<E>(
    commands: Seq<InvokeCommand>,
    subject: Container,
    state: WmState,
    config: UserConfig,
) -> ManagerDialogue<E, Result<ContainerId, WmError<E>>> {
    followed(commands_dialogue(commands, subject, state, config), state, after_commands())
}

pub open spec fn after_commands<E>() -> spec_fn(
    Result<ContainerId, WmError<E>>,
    WmState,
) -> ManagerDialogue<E, Result<ContainerId, WmError<E>>> {
    |result: Result<ContainerId, WmError<E>>, now: WmState|
        match result {
            Ok(id) => sync_and_wrap_up(id, now.has_pending_changes, true),
            Err(error) => Dialogue::Return(Err(error)),
        }
}

// ---------------------------------------------------------------------------
// Processing events of the platform.

/// Whether the keys are bound to the commands of `config`.
pub open spec fn is_bound(config: KeybindingConfig, keys: Seq<u16>) -> bool {
    exists|i: int|
        0 <= i < config.bindings@.len() && (#[trigger] config.bindings@[i]).keys@ == keys
}

/// The commands of the first of `configs` that the keys are bound to.
pub open spec fn bound_commands(configs: Seq<KeybindingConfig>, keys: Seq<u16>) -> Option<
    Seq<InvokeCommand>,
>
    decreases configs.len(),
{
    if configs.len() == 0 {
        None
    } else if is_bound(configs[0], keys) {
        Some(configs[0].commands@)
    } else {
        bound_commands(configs.drop_first(), keys)
    }
}

/// The handler of an event that is no keybinding.
pub open spec fn handler_of(event: PlatformEvent) -> Option<Handler> {
    match event {
        PlatformEvent::DisplaySettingsChanged => Some(Handler::DisplaySettingsChanged),
        PlatformEvent::Keybinding(_) => None,
        PlatformEvent::Mouse { ticket } => Some(Handler::MouseMove { ticket }),
        PlatformEvent::Window(WindowEvent::Focused { window }) => Some(
            Handler::WindowFocused { window },
        ),
        PlatformEvent::Window(WindowEvent::Shown { window }) => Some(
            Handler::WindowShown { window },
        ),
        PlatformEvent::Window(WindowEvent::Hidden { window }) => Some(
            Handler::WindowHidden { window },
        ),
        PlatformEvent::Window(
            WindowEvent::MovedOrResized { window, is_interactive_start, is_interactive_end },
        ) => Some(
            Handler::WindowMovedOrResized { window, is_interactive_start, is_interactive_end },
        ),
        PlatformEvent::Window(WindowEvent::Minimized { window }) => Some(
            Handler::WindowMinimized { window },
        ),
        PlatformEvent::Window(WindowEvent::MinimizeEnded { window }) => Some(
            Handler::WindowMinimizeEnded { window },
        ),
        PlatformEvent::Window(WindowEvent::TitleChanged { window }) => Some(
            Handler::WindowTitleChanged { window },
        ),
        PlatformEvent::Window(WindowEvent::Destroyed { window_id }) => Some(
            Handler::WindowDestroyed { window_id },
        ),
    }
}

/// Lets the event's handler work, then brings the platform up to date. A
/// keybinding runs its commands, which do that themselves.
pub open spec fn process_event_dialogue<E>(event: PlatformEvent, state: WmState) -> ManagerDialogue<
    E,
    Result<(), WmError<E>>,
> {
    match event {
        PlatformEvent::Keybinding(keybinding) => manage(
            ManagerCall::ActiveKeybindings { is_paused: state.is_paused },
            after_keybindings(keybinding.keys@),
        ),
        event => handle(handler_of(event)->0, true),
    }
}

/// Lets the handler work, then brings the platform up to date, unless the
/// window manager is paused.
pub open spec fn handle<E>(handler: Handler, starts_timer: bool) -> ManagerDialogue<
    E,
    Result<(), WmError<E>>,
> {
    manage(ManagerCall::Handle(handler), after_handler(starts_timer))
}

pub open spec fn after_handler<E>(starts_timer: bool) -> spec_fn(Turn<E>) -> ManagerDialogue<
    E,
    Result<(), WmError<E>>,
> {
    |turn: Turn<E>|
        match turn.reply {
            Reply::Done => sync_and_wrap_up(
                (),
                !turn.state.is_paused && turn.state.has_pending_changes,
                starts_timer,
            ),
            reply => refused(reply),
        }
}

pub open spec fn after_keybindings<E>(keys: Seq<u16>) -> spec_fn(Turn<E>) -> ManagerDialogue<
    E,
    Result<(), WmError<E>>,
> {
    |turn: Turn<E>|
        match turn.reply {
            Reply::Keybindings(configs) => match bound_commands(configs@, keys) {
                Some(commands) => followed(
                    process_commands_dialogue(commands, None, turn.state, turn.config),
                    turn.state,
                    without_subject(),
                ),
                None => Dialogue::Return(Ok(())),
            },
            reply => refused(reply),
        }
}

/// Ends as the commands did, without the ID of their subject.
pub open spec fn without_subject<E>() -> spec_fn(
    Result<ContainerId, WmError<E>>,
    WmState,
) -> ManagerDialogue<E, Result<(), WmError<E>>> {
    |result: Result<ContainerId, WmError<E>>, now: WmState|
        match result {
            Ok(_) => Dialogue::Return(Ok(())),
            Err(error) => Dialogue::Return(Err(error)),
        }
}

/// Runs the handler that a native interactive move runs, then brings the
/// platform up to date.
pub open spec fn process_window_drag_dialogue<E>(
    native_window: u64,
    is_start: bool,
) -> ManagerDialogue<E, Result<(), WmError<E>>> {
    handle(
        Handler::WindowMovedOrResized {
            window: native_window,
            is_interactive_start: is_start,
            is_interactive_end: !is_start,
        },
        false,
    )
}

/// Updates the active animations.
pub open spec fn update_animations_dialogue<E>() -> ManagerDialogue<E, Result<(), WmError<E>>> {
    manage(ManagerCall::UpdateAnimations, after_last(()))
}

// ---------------------------------------------------------------------------
// Processing events of the window manager.

/// Lets the tiling direction follow the shape of the window that came into
/// focus, or moved with it, where the configuration says so and the window is
/// tiling.
pub open spec fn process_wm_event_dialogue<E>(
    event: WmEvent,
    config: UserConfig,
) -> ManagerDialogue<E, Result<(), WmError<E>>> {
    match auto_tiling::window_to_follow(event) {
        Some(id) if config.auto_set_tiling_direction => manage(
            ManagerCall::ContainerById { id },
            after_window_lookup(),
        ),
        _ => Dialogue::Return(Ok(())),
    }
}

/// Whether the container is a tiling window.
pub open spec fn is_tiling_window(container: Container) -> bool {
    container.facts.window is Some && container.facts.window->0.state is Tiling
}

pub open spec fn after_window_lookup<E>() -> spec_fn(Turn<E>) -> ManagerDialogue<
    E,
    Result<(), WmError<E>>,
> {
    |turn: Turn<E>|
        match turn.reply {
            Reply::Container(Some(container)) => if is_tiling_window(container) {
                perform(Action::WindowRect { window: container.node }, after_rect(container.node))
            } else {
                Dialogue::Return(Ok(()))
            },
            Reply::Container(None) => Dialogue::Return(Ok(())),
            reply => refused(reply),
        }
}

pub open spec fn after_rect<E>(window: u64) -> spec_fn(Turn<E>) -> ManagerDialogue<
    E,
    Result<(), WmError<E>>,
> {
    |turn: Turn<E>|
        match turn.reply {
            Reply::Rect(rect) => match auto_tiling::along_longer_side(
                rect.width as int,
                rect.height as int,
            ) {
                Some(direction) => perform(
                    Action::SetTilingDirection { container: window, direction },
                    after_last(()),
                ),
                None => Dialogue::Return(Ok(())),
            },
            reply => refused(reply),
        }
}

// ---------------------------------------------------------------------------
// Starting and exiting.

/// Fills the state, then starts the animation timer.
pub open spec fn new_dialogue<E>() -> ManagerDialogue<E, Result<WindowManager, WmError<E>>> {
    manage(ManagerCall::Populate, after_populate())
}

pub open spec fn after_populate<E>() -> spec_fn(Turn<E>) -> ManagerDialogue<
    E,
    Result<WindowManager, WmError<E>>,
> {
    |turn: Turn<E>|
        match turn.reply {
            Reply::Done => manage(ManagerCall::EnsureTimerRunning, after_start()),
            reply => refused(reply),
        }
}

pub open spec fn after_start<E>() -> spec_fn(Turn<E>) -> ManagerDialogue<
    E,
    Result<WindowManager, WmError<E>>,
> {
    |turn: Turn<E>|
        match turn.reply {
            Reply::Done => Dialogue::Return(Ok(WindowManager { state: turn.state })),
            reply => refused(reply),
        }
}

/// Says that the window manager exits and ends its pause, otherwise the
/// shutdown commands would not run. Then it runs them, and ends as they do.
pub open spec fn shutdown_dialogue<E>(commands: Seq<InvokeCommand>) -> ManagerDialogue<
    E,
    Result<ContainerId, WmError<E>>,
> {
    manage(ManagerCall::EmitApplicationExiting, after_exiting(commands))
}

pub open spec fn after_exiting<E>(commands: Seq<InvokeCommand>) -> spec_fn(
    Turn<E>,
) -> ManagerDialogue<E, Result<ContainerId, WmError<E>>> {
    |turn: Turn<E>| manage(ManagerCall::Unpause, after_unpause(commands))
}

pub open spec fn after_unpause<E>(commands: Seq<InvokeCommand>) -> spec_fn(
    Turn<E>,
) -> ManagerDialogue<E, Result<ContainerId, WmError<E>>> {
    |turn: Turn<E>| process_commands_dialogue(commands, None, turn.state, turn.config)
}

} // verus!
