//! What holds of every command, whatever the replies to its calls are.
use vstd::prelude::*;

use crate::auto_tiling;
use crate::call::{Action, CommandCall, Reply, UpdatedWindow};
use crate::command::InvokeCommand;
use crate::command_dialogue;
use crate::config::UserConfig;
use crate::dialogue::Dialogue;
use crate::error::WmError;
use crate::state::{Container, WmState};
use crate::values::{LengthValue, Opacity, OpacityValue, TilingDirection, WindowState};

verus! {

// ---------------------------------------------------------------------------
// One command.

/// A paused window manager does nothing on a command, unless the command
/// toggles the pause.
pub proof fn law_paused_command_does_nothing<E>(
    command: InvokeCommand,
    subject: Container,
    state: WmState,
    config: UserConfig,
)
    requires
        state.is_paused,
        !(command is WmTogglePause),
    ensures
        command_dialogue::run_command_dialogue::<E>(command, subject, state, config)
            == Dialogue::<CommandCall<Seq<char>>, Reply<E>, Result<(), WmError<E>>>::Return(Ok(())),
{
}

/// Toggling the pause works alike in a paused window manager and in one that
/// is not.
pub proof fn law_pause_can_always_be_toggled<E>(
    subject: Container,
    state: WmState,
    is_paused: bool,
    config: UserConfig,
)
    ensures
        command_dialogue::run_command_dialogue::<E>(
            InvokeCommand::WmTogglePause,
            subject,
            state,
            config,
        ) == command_dialogue::run_command_dialogue::<E>(
            InvokeCommand::WmTogglePause,
            subject,
            WmState { is_paused, ..state },
            config,
        ),
{
}

/// No command runs with a container that is out of the tree.
pub proof fn law_detached_subject_is_refused<E>(
    command: InvokeCommand,
    subject: Container,
    state: WmState,
    config: UserConfig,
)
    requires
        subject.facts.is_detached,
        !state.is_paused || command is WmTogglePause,
    ensures
        command_dialogue::run_command_dialogue::<E>(command, subject, state, config)
            == Dialogue::<CommandCall<Seq<char>>, Reply<E>, Result<(), WmError<E>>>::Return(
            Err(WmError::SubjectDetached),
        ),
{
}

/// What only a window can do succeeds with any other container, and does
/// nothing.
pub proof fn law_window_command_skips_other_containers<E>(
    command: InvokeCommand,
    subject: Container,
    state: WmState,
    config: UserConfig,
)
    requires
        command_dialogue::is_window_command(command),
        subject.facts.window is None,
        !subject.facts.is_detached,
    ensures
        command_dialogue::run_command_dialogue::<E>(command, subject, state, config)
            == Dialogue::<CommandCall<Seq<char>>, Reply<E>, Result<(), WmError<E>>>::Return(Ok(())),
{
}

/// Title bars and transparency are left alone on a platform that is not
/// Windows.
pub proof fn law_windows_effects_do_nothing_elsewhere<E>(
    command: InvokeCommand,
    subject: Container,
    state: WmState,
    config: UserConfig,
)
    requires
        !(state.platform is Windows),
        !subject.facts.is_detached,
        command is SetTitleBarVisibility || command is SetTransparency
            || command is ToggleTransparencyPin,
    ensures
        command_dialogue::run_command_dialogue::<E>(command, subject, state, config)
            == Dialogue::<CommandCall<Seq<char>>, Reply<E>, Result<(), WmError<E>>>::Return(Ok(())),
{
}

/// Actions in a row are performed in their order, whatever the replies, and a
/// command that succeeds has performed every one of them.
pub proof fn law_script_keeps_order<E>(actions: Seq<Action>, replies: Seq<Reply<E>>)
    ensures
        ({
            let script = command_dialogue::script::<E>(actions);
            let calls = script.questions(replies);
            &&& calls.len() <= actions.len()
            &&& forall|i: int|
                0 <= i < calls.len() ==> #[trigger] calls[i] == CommandCall::<Seq<char>>::Act(
                    actions[i],
                )
            &&& actions.len() > 0 ==> calls.len() > 0
            &&& script.outcome(replies) == Some(Ok::<(), WmError<E>>(())) ==> calls.len()
                == actions.len()
        }),
    decreases actions.len(),
{
    if actions.len() > 0 && replies.len() > 0 {
        let rest = actions.drop_first();
        law_script_keeps_order(rest, replies.drop_first());
        let left = command_dialogue::after_action::<E>(
            command_dialogue::tolerates_failure(actions[0]),
            rest,
        )(replies[0]);
        let script = command_dialogue::script::<E>(actions);
        assert(script.questions(replies) == seq![CommandCall::<Seq<char>>::Act(actions[0])]
            + left.questions(replies.drop_first()));
        assert(script.outcome(replies) == left.outcome(replies.drop_first()));
        assert(left is Return ==> left.questions(replies.drop_first()) =~= Seq::empty());
        assert(left is Ask ==> left == command_dialogue::script::<E>(rest));
    }
}

/// Actions in a row, each of which succeeds, are performed in their order and
/// to the last one.
pub proof fn law_script_performs_all<E>(actions: Seq<Action>)
    ensures
        ({
            let all_done = Seq::new(actions.len(), |i: int| Reply::<E>::Done);
            let script = command_dialogue::script::<E>(actions);
            &&& script.questions(all_done) == actions.map_values(
                |action: Action| CommandCall::<Seq<char>>::Act(action),
            )
            &&& script.outcome(all_done) == Some(Ok::<(), WmError<E>>(()))
        }),
    decreases actions.len(),
{
    let all_done = Seq::new(actions.len(), |i: int| Reply::<E>::Done);
    let act = |action: Action| CommandCall::<Seq<char>>::Act(action);
    let script = command_dialogue::script::<E>(actions);
    if actions.len() == 0 {
        assert(script.questions(all_done) =~= actions.map_values(act));
    } else {
        let rest = actions.drop_first();
        law_script_performs_all::<E>(rest);
        assert(all_done.drop_first() =~= Seq::new(rest.len(), |i: int| Reply::<E>::Done));
        assert(actions.map_values(act) =~= seq![act(actions[0])] + rest.map_values(act));
    }
}

/// That many successes, then a failure.
pub open spec fn done_but_last<E>(count: nat, error: E) -> Seq<Reply<E>> {
    Seq::new(count + 1, |i: int| if i < count { Reply::Done } else { Reply::Failed(error) })
}

/// Actions in a row end with the first failure that counts: what follows it is
/// not performed, and its error is the command's.
pub proof fn law_script_ends_at_failure<E>(actions: Seq<Action>, done: nat, error: E)
    requires
        done < actions.len(),
        !command_dialogue::tolerates_failure(actions[done as int]),
    ensures
        ({
            let replies = done_but_last(done, error);
            let script = command_dialogue::script::<E>(actions);
            &&& script.questions(replies) == actions.take(done as int + 1).map_values(
                |action: Action| CommandCall::<Seq<char>>::Act(action),
            )
            &&& script.outcome(replies) == Some(Err::<(), WmError<E>>(WmError::Host(error)))
        }),
    decreases actions.len(),
{
    let replies = done_but_last(done, error);
    let act = |action: Action| CommandCall::<Seq<char>>::Act(action);
    let script = command_dialogue::script::<E>(actions);
    let rest = actions.drop_first();
    let asked = actions.take(done as int + 1).map_values(act);
    if done == 0 {
        reveal_with_fuel(Dialogue::questions, 2);
        reveal_with_fuel(Dialogue::outcome, 2);
        assert(asked =~= seq![act(actions[0])] + Seq::empty());
    } else {
        let before = (done - 1) as nat;
        law_script_ends_at_failure(rest, before, error);
        assert(replies.drop_first() =~= done_but_last(before, error));
        assert(asked =~= seq![act(actions[0])] + rest.take(before as int + 1).map_values(act));
    }
}

/// Where the failure of no action counts, all actions are performed and the
/// command succeeds, whichever of them failed.
pub proof fn law_script_passes_over_tolerated_failures<E>(
    actions: Seq<Action>,
    replies: Seq<Reply<E>>,
)
    requires
        replies.len() == actions.len(),
        forall|i: int|
            0 <= i < actions.len() ==> command_dialogue::tolerates_failure(#[trigger] actions[i]),
        forall|i: int|
            0 <= i < replies.len() ==> (#[trigger] replies[i] is Done || replies[i] is Failed),
    ensures
        ({
            let script = command_dialogue::script::<E>(actions);
            &&& script.questions(replies) == actions.map_values(
                |action: Action| CommandCall::<Seq<char>>::Act(action),
            )
            &&& script.outcome(replies) == Some(Ok::<(), WmError<E>>(()))
        }),
    decreases actions.len(),
{
    let act = |action: Action| CommandCall::<Seq<char>>::Act(action);
    let script = command_dialogue::script::<E>(actions);
    if actions.len() == 0 {
        assert(script.questions(replies) =~= actions.map_values(act));
    } else {
        let rest = actions.drop_first();
        let replies1 = replies.drop_first();
        assert forall|i: int| 0 <= i < rest.len() implies command_dialogue::tolerates_failure(
            #[trigger] rest[i],
        ) by {
            assert(rest[i] == actions[i + 1]);
        }
        assert forall|i: int| 0 <= i < replies1.len() implies (#[trigger] replies1[i] is Done
            || replies1[i] is Failed) by {
            assert(replies1[i] == replies[i + 1]);
        }
        law_script_passes_over_tolerated_failures(rest, replies1);
        assert(replies[0] is Done || replies[0] is Failed);
        assert(script->Ask_1(replies[0]) == command_dialogue::script::<E>(rest));
        assert(actions.map_values(act) =~= seq![act(actions[0])] + rest.map_values(act));
    }
}

// ---------------------------------------------------------------------------
// Closing a window.

/// The call that closes the native window.
pub open spec fn closes(call: CommandCall<Seq<char>>, window: u64) -> bool {
    call == CommandCall::<Seq<char>>::Act(Action::CloseWindow { window })
}

/// The call that cloaks the native window.
pub open spec fn cloaks(call: CommandCall<Seq<char>>, window: u64) -> bool {
    call == CommandCall::<Seq<char>>::Act(Action::SetCloaked { window, cloaked: true })
}

/// The call that takes the window out of the tree so that it can close.
pub open spec fn detaches(call: CommandCall<Seq<char>>, window: u64) -> bool {
    call == CommandCall::<Seq<char>>::Act(Action::DetachWindowForClose { window })
}

/// The call that puts the surrogate up.
pub open spec fn puts_surrogate_up(call: CommandCall<Seq<char>>, window: u64) -> bool {
    match call {
        CommandCall::Act(Action::StartCloseAnimation { window: target, .. }) => target == window,
        _ => false,
    }
}

/// Whether the calls close a window in good order.
pub open spec fn closes_in_order<E>(
    calls: Seq<CommandCall<Seq<char>>>,
    replies: Seq<Reply<E>>,
    window: u64,
) -> bool {
    // The window is cloaked once its surrogate is up and is known to be up.
    &&& forall|i: int|
        0 <= i < calls.len() && cloaks(#[trigger] calls[i], window) ==> i >= 2
            && puts_surrogate_up(calls[i - 2], window) && replies[i - 1] == Reply::<E>::Flag(true)
    // It is detached once it is cloaked.
    &&& forall|i: int|
        0 <= i < calls.len() && detaches(#[trigger] calls[i], window) ==> i >= 1 && cloaks(
            calls[i - 1],
            window,
        )
    // A window that is detached is not closed at once as well.
    &&& forall|i: int, j: int|
        0 <= i < calls.len() && 0 <= j < calls.len() ==> !(detaches(#[trigger] calls[i], window)
            && closes(#[trigger] calls[j], window))
}

/// What is asked once it is known whether the surrogate is up.
proof fn lemma_close_check<E>(window: Container, reply: Reply<E>, replies: Seq<Reply<E>>)
    ensures
        ({
            let left = command_dialogue::after_close_check::<E>(window)(reply);
            let calls = left.questions(replies);
            &&& calls.len() <= 2
            &&& forall|i: int|
                0 <= i < calls.len() ==> if reply == Reply::<E>::Flag(true) {
                    if i == 0 {
                        cloaks(#[trigger] calls[i], window.node)
                    } else {
                        detaches(calls[i], window.node)
                    }
                } else {
                    closes(calls[i], window.node)
                }
            &&& left.outcome(replies) == Some(Ok::<(), WmError<E>>(())) ==> calls.len() == if reply
                == Reply::<E>::Flag(true) {
                2int
            } else {
                1
            }
        }),
{
    law_script_keeps_order(
        seq![
            Action::SetCloaked { window: window.node, cloaked: true },
            Action::DetachWindowForClose { window: window.node },
        ],
        replies,
    );
    law_script_keeps_order(seq![Action::CloseWindow { window: window.node }], replies);
}

/// A window is cloaked only behind its surrogate, and detached only when
/// cloaked: the desktop never shows through. It is either closed at once or
/// detached, never both, and a command that succeeds did one of the two.
pub proof fn law_window_closes_in_order<E>(
    subject: Container,
    state: WmState,
    config: UserConfig,
    replies: Seq<Reply<E>>,
)
    ensures
        ({
            let close = command_dialogue::run_command_dialogue::<E>(
                InvokeCommand::Close,
                subject,
                state,
                config,
            );
            let calls = close.questions(replies);
            &&& closes_in_order(calls, replies, subject.node)
            &&& close.outcome(replies) == Some(Ok::<(), WmError<E>>(()))
                && subject.facts.window is Some && !state.is_paused ==> exists|i: int|
                0 <= i < calls.len() && (closes(#[trigger] calls[i], subject.node) || detaches(
                    calls[i],
                    subject.node,
                ))
        }),
{
    let close = command_dialogue::run_command_dialogue::<E>(
        InvokeCommand::Close,
        subject,
        state,
        config,
    );
    let calls = close.questions(replies);
    let closing = seq![Action::CloseWindow { window: subject.node }];
    law_script_keeps_order(closing, replies);
    let immediately = command_dialogue::close_immediately::<E>(subject);
    if close == immediately {
        assert(closes(calls[0], subject.node));
    } else if close is Ask && replies.len() > 0 {
        let look = command_dialogue::surrogate_look(
            command_dialogue::effects_of(subject, state, config),
        );
        let left1 = command_dialogue::after_close_rect::<E>(subject, look)(replies[0]);
        let replies1 = replies.drop_first();
        law_script_keeps_order(closing, replies1);
        assert(calls == seq![close->Ask_0] + left1.questions(replies1));
        assert(close.outcome(replies) == left1.outcome(replies1));
        if replies[0] is Failed {
            assert(closes(calls[1], subject.node));
        } else if replies[0] is Rect && replies1.len() > 0 {
            let rect = replies[0]->Rect_0;
            let left2 = command_dialogue::after_close_delta::<E>(subject, look, rect)(replies1[0]);
            let replies2 = replies1.drop_first();
            law_script_keeps_order(closing, replies2);
            assert(left1.questions(replies1) == seq![left1->Ask_0] + left2.questions(replies2));
            assert(left1.outcome(replies1) == left2.outcome(replies2));
            if replies1[0] is Failed {
                assert(closes(calls[2], subject.node));
            } else if replies1[0] is Delta && replies2.len() > 0 {
                let left3 = command_dialogue::after_close_frame::<E>(subject, look)(replies2[0]);
                let replies3 = replies2.drop_first();
                assert(left2.questions(replies2) == seq![left2->Ask_0] + left3.questions(replies3));
                assert(left2.outcome(replies2) == left3.outcome(replies3));
                if replies2[0] is Rect && replies3.len() > 0 {
                    let left4 = command_dialogue::after_close_start::<E>(subject)(replies3[0]);
                    let replies4 = replies3.drop_first();
                    assert(left3.questions(replies3) == seq![left3->Ask_0] + left4.questions(
                        replies4,
                    ));
                    assert(left3.outcome(replies3) == left4.outcome(replies4));
                    if replies3[0] is Done && replies4.len() > 0 {
                        let left5 = command_dialogue::after_close_check::<E>(subject)(replies4[0]);
                        let replies5 = replies4.drop_first();
                        assert(left4.questions(replies4) == seq![left4->Ask_0] + left5.questions(
                            replies5,
                        ));
                        assert(left4.outcome(replies4) == left5.outcome(replies5));
                        lemma_close_check(subject, replies4[0], replies5);
                        assert(replies4[0] == replies[4]);
                        assert(calls =~= seq![
                            close->Ask_0,
                            left1->Ask_0,
                            left2->Ask_0,
                            left3->Ask_0,
                            left4->Ask_0,
                        ] + left5.questions(replies5));
                        if close.outcome(replies) == Some(Ok::<(), WmError<E>>(())) {
                            if replies4[0] == Reply::<E>::Flag(true) {
                                assert(detaches(calls[6], subject.node));
                            } else {
                                assert(closes(calls[5], subject.node));
                            }
                        }
                    }
                }
            }
        }
    }
}

// ---------------------------------------------------------------------------
// Floating windows and transparency.

/// A window that the user has placed by hand keeps its size and its place when
/// it is made to float.
pub proof fn law_custom_placement_is_kept<E>(
    centered: Option<bool>,
    shown_on_top: Option<bool>,
    x_pos: Option<i32>,
    y_pos: Option<i32>,
    width: Option<LengthValue>,
    height: Option<LengthValue>,
    subject: Container,
    state: WmState,
    config: UserConfig,
    window: UpdatedWindow,
)
    requires
        subject.facts.window is Some,
        !subject.facts.is_detached,
        !state.is_paused,
        window.has_custom_floating_placement,
    ensures
        ({
            let command = InvokeCommand::SetFloating {
                centered,
                shown_on_top,
                x_pos,
                y_pos,
                width,
                height,
            };
            let dialogue = command_dialogue::run_command_dialogue::<E>(
                command,
                subject,
                state,
                config,
            );
            let floated = seq![Reply::<E>::Window(window)];
            &&& dialogue.questions(floated) == seq![
                CommandCall::<Seq<char>>::Act(
                    Action::UpdateWindowState {
                        window: subject.node,
                        state: command_dialogue::floating_state(
                            centered,
                            shown_on_top,
                            config.floating_defaults,
                        ),
                    },
                ),
            ]
            &&& dialogue.outcome(floated) == Some(Ok::<(), WmError<E>>(()))
        }),
{
    reveal_with_fuel(Dialogue::questions, 2);
    reveal_with_fuel(Dialogue::outcome, 2);
    let command = InvokeCommand::SetFloating {
        centered,
        shown_on_top,
        x_pos,
        y_pos,
        width,
        height,
    };
    let dialogue = command_dialogue::run_command_dialogue::<E>(command, subject, state, config);
    let floated = seq![Reply::<E>::Window(window)];
    let left = dialogue->Ask_1(floated[0]);
    assert(left == command_dialogue::script::<E>(Seq::empty()));
    assert(dialogue.questions(floated) =~= seq![dialogue->Ask_0]);
}

/// A window that the user has placed by hand keeps its place when floating is
/// toggled.
pub proof fn law_custom_placement_is_kept_by_toggle<E>(
    centered: Option<bool>,
    shown_on_top: Option<bool>,
    subject: Container,
    state: WmState,
    config: UserConfig,
    toggled: WindowState,
    window: UpdatedWindow,
)
    requires
        subject.facts.window is Some,
        !subject.facts.is_detached,
        !state.is_paused,
        window.has_custom_floating_placement,
    ensures
        ({
            let dialogue = command_dialogue::run_command_dialogue::<E>(
                InvokeCommand::ToggleFloating { centered, shown_on_top },
                subject,
                state,
                config,
            );
            let replies = seq![Reply::<E>::State(toggled), Reply::<E>::Window(window)];
            &&& dialogue.questions(replies) == seq![
                CommandCall::<Seq<char>>::Act(
                    Action::ToggledState {
                        window: subject.node,
                        target: command_dialogue::floating_state(
                            centered,
                            shown_on_top,
                            config.floating_defaults,
                        ),
                    },
                ),
                CommandCall::<Seq<char>>::Act(
                    Action::UpdateWindowState { window: subject.node, state: toggled },
                ),
            ]
            &&& dialogue.outcome(replies) == Some(Ok::<(), WmError<E>>(()))
        }),
{
    let dialogue = command_dialogue::run_command_dialogue::<E>(
        InvokeCommand::ToggleFloating { centered, shown_on_top },
        subject,
        state,
        config,
    );
    let replies = seq![Reply::<E>::State(toggled), Reply::<E>::Window(window)];
    let replies1 = replies.drop_first();
    let left1 = dialogue->Ask_1(replies[0]);
    assert(replies1 =~= seq![Reply::<E>::Window(window)]);
    let replies2 = replies1.drop_first();
    let left2 = left1->Ask_1(replies1[0]);
    assert(left2 == command_dialogue::script::<E>(Seq::empty()));
    assert(left1.questions(replies1) == seq![left1->Ask_0] + left2.questions(replies2));
    assert(left1.outcome(replies1) == left2.outcome(replies2));
    assert(dialogue.questions(replies) =~= seq![dialogue->Ask_0, left1->Ask_0]);
}

/// A window is placed at the coordinates of a command only where the command
/// does not center it.
pub proof fn law_center_goes_before_coordinates(
    window: UpdatedWindow,
    placement: command_dialogue::Placement,
)
    requires
        placement.centered,
    ensures
        forall|i: int|
            0 <= i < command_dialogue::placement_actions(window, placement).len() ==> (
            #[trigger] command_dialogue::placement_actions(window, placement)[i] matches
                Action::SetWindowPosition { target, .. } ==> target is Centered),
{
}

/// Toggling a transparency pin alternates: a window without a pin is pinned at
/// the very opacity that it is drawn with from then on, and a window with one
/// loses it and gets its configured effects back.
pub proof fn law_transparency_pin_alternates(opacity: Option<OpacityValue>, window: u64)
    ensures
        ({
            let pinning = command_dialogue::transparency_pin_actions(false, opacity, window);
            &&& pinning.len() == 2
            &&& match pinning[0] {
                Action::SetTransparency { window: target, opacity: drawn } => target == window
                    && pinning[1] == (Action::SetTransparencyPin { window, pin: Some(drawn) }),
                _ => false,
            }
            &&& opacity is None ==> pinning[0] == (Action::SetTransparency {
                window,
                opacity: Opacity::Alpha(255),
            })
        }),
        command_dialogue::transparency_pin_actions(true, opacity, window) == seq![
            Action::SetTransparencyPin { window, pin: None },
            Action::QueueAllEffectsUpdate,
        ],
{
}

// ---------------------------------------------------------------------------
// The tiling direction.

/// Turning a window by a right angle turns its tiling direction, and a window
/// has none exactly where it is square.
pub proof fn law_tiling_direction_turns_with_window(width: int, height: int)
    ensures
        auto_tiling::along_longer_side(width, height) is None <==> width == height,
        auto_tiling::along_longer_side(height, width) == (match auto_tiling::along_longer_side(
            width,
            height,
        ) {
            Some(TilingDirection::Horizontal) => Some(TilingDirection::Vertical),
            Some(TilingDirection::Vertical) => Some(TilingDirection::Horizontal),
            None => None,
        }),
{
}

} // verus!
