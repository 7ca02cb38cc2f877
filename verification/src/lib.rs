//! Decision logic of an editor's terminal dock panel and of its "default prompt" slash command.
//!
//! The panel and the command are driven from outside: the caller owns the windows, the panes,
//! the processes and the stores, reports what it sees as plain values, and carries out the
//! actions that the functions here return.

pub mod dock;
pub mod layout;
pub mod pane;
pub mod panel;
pub mod policy;
pub mod shell;
pub mod slash_command;
pub mod task;
pub mod text;
