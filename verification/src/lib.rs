//! Core of a keyboard-driven terminal control surface for multiplexer
//! sessions, version-control worktrees, and editor buffers.
//!
//! The crate holds the verified logic: the action model, the fuzzy-filtered
//! selectable list, the modal dialog state machines, the parsers for
//! collaborator output, the multi-step version-control workflows, and the
//! application router. Terminal I/O, subprocess invocation, and painting live
//! outside, behind plain-value interfaces.

pub mod actions;
pub mod app;
pub mod buffer;
pub mod command;
pub mod confirm;
pub mod error;
pub mod fuzzy;
pub mod git;
pub mod input;
pub mod keybindings;
pub mod list;
pub mod session;
pub mod text;
pub mod worktree;

pub use error::PmanError;
