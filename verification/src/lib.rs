//! Command-resolution and execution core of an interactive shell.
//!
//! The crate models the shell's state (working directory, previous working
//! directory, home directory, display truncation) as plain values and verifies
//! the logic that resolves a typed command name through an alias registry,
//! checks its arguments and applies its effect. Filesystem work is delegated
//! to the caller: before dispatching, the caller asks which filesystem action
//! a command needs (`CommandManager::prepare`), performs it, and hands the
//! outcome back through the execution context's `reply` field.

pub mod builtins;
pub mod commands;
pub mod effects;
pub mod environment;
pub mod laws;
pub mod paint;
pub mod strings;
