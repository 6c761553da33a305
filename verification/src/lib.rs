//! Shell-integration layer of a tool-version manager.
//!
//! The manager process cannot change its parent shell's environment, so it
//! writes a small "postscript" script to a known path; the interactive shell
//! sources that file after every command. This crate holds the verified core:
//! the activation intents, the shell-syntax renderer for the Bourne family,
//! and the strict detection of the running shell from its two environment
//! signals. Reading the real environment and writing the file are left to a
//! thin unverified adapter around the crate.

pub mod bash;
pub mod postscript;
pub mod semantics;
pub mod shell;
pub mod version;
