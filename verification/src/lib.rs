//! An interactive terminal launcher: single-key shortcuts that either run a
//! fixed shell command or open an in-terminal line editor whose text is
//! substituted into a command template before execution.
//!
//! The crate holds the launcher's logic: the line editor with its cursor
//! invariant, the keymap dispatch state machine, and command templating.
//! Terminal I/O and process spawning are left to the caller, which drives the
//! step functions here with key events and carries commands to the shell.

pub mod cmd_runner;
pub mod dispatch;
pub mod esc;
pub mod input;
pub mod keymap;
pub mod strutil;
pub mod term_writer;
