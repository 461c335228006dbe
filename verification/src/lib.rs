//! Dispatch core of a small interactive file-management shell.
//!
//! A line of input is tokenized into a command word and arguments, the word is
//! looked up in a fixed registry of command descriptors, the argument count is
//! validated against the descriptor's schema, and the result is an outcome
//! value: either a diagnostic line to print, or exactly one invocation of a
//! filesystem primitive with a fully populated argument vector.  The
//! filesystem primitives themselves, and all reading and printing, live
//! outside this crate; this crate decides, and proves what it decides.

pub mod command;
pub mod manager;
pub mod text;
