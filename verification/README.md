# wm

The decisions of a tiling window manager, verified with Verus.

An operation of the window manager (processing an event, running commands,
exiting) asks for one call at a time, is given the reply to it together with the
state as it then is, and goes on from there. What it asks for, for every reply
that may come, is written down as a dialogue; the executable code is proved to be
that dialogue.

- `src/`: the verified library. `command_dialogue.rs` and `manager_dialogue.rs`
  say what each operation does. `run_command.rs`, `run_commands.rs`,
  `process_commands.rs`, `process_event.rs`, `process_wm_event.rs` and `wm.rs` do
  it. `command_laws.rs`, `manager_laws.rs` and `pause_laws.rs` prove what holds of
  all of them.
- `app/`: the driver that makes the calls on a host.
- `tests/`: the library at work on concrete values.

Two functions of the `uuid` crate are trusted; they stand in `uuid_text.rs`.
