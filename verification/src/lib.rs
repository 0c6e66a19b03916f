//! The decisions of a tiling window manager.
//!
//! What the window manager does to windows, workspaces and the platform is done
//! by a host. The library decides what is to be done: an operation asks for one
//! call at a time, is given the reply to it, and goes on from there until it
//! ends. Each operation is described as a whole, for every reply that may come,
//! as a [`dialogue::Dialogue`]; the executable operation is proved to be that
//! dialogue, call by call.
//!
//! [`wm::WindowManager`] holds the operations. [`call`] holds the calls and their
//! replies, [`command_dialogue`] and [`manager_dialogue`] what each operation asks
//! for, and [`command_laws`], [`manager_laws`] and [`pause_laws`] what holds of all
//! of them. [`command_conduct`] and [`operation_conduct`] tell what each of them
//! does by its calls alone.
pub mod auto_tiling;
pub mod blur_style;
pub mod call;
pub mod command;
pub mod command_conduct;
pub mod command_dialogue;
pub mod command_laws;
pub mod conduct;
pub mod config;
pub mod dialogue;
pub mod error;
pub mod event;
pub mod manager_dialogue;
pub mod manager_laws;
pub mod operation_conduct;
pub mod pause_laws;
pub mod process_commands;
pub mod process_event;
pub mod process_wm_event;
pub mod run_command;
pub mod run_commands;
pub mod state;
pub mod transcript;
pub mod uuid_text;
pub mod values;
pub mod wm;
pub mod workspace_target;
