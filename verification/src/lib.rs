//! Bootstrapping a new Cargo project under version control.
//!
//! A bootstrap makes the project with `cargo new`, puts an empty root commit
//! under it, commits what `cargo new` made under a message that spells out
//! its arguments and, unless a library was asked for, builds the project once
//! and commits what the build left.
//!
//! The crate decides *what* is run and in which order; launching the
//! commands is left to the caller. A caller checks the flags of its command
//! line with [`options::Options::new`], asks [`sequence::command_for`] for
//! the command of the stage it is at, launches it, and hands the outcome to
//! [`run::step`], which names the next stage, the end of the bootstrap, or
//! the error that stops it. [`run::replay`] does the same against outcomes
//! that are given beforehand and launches nothing.
//!
//! - [`options`]: the flags of the command line, checked.
//! - [`verbosity`]: from `-v` and `-q` to a level filter.
//! - [`text`]: joining words.
//! - [`command`]: a command, the arguments of `cargo new`, the message of the
//!   scaffold commit.
//! - [`sequence`]: the stages and the command of each.
//! - [`run`]: outcomes, errors, and whole runs.
//! - [`report`]: the message of an error.

pub mod command;
pub mod options;
pub mod report;
pub mod run;
pub mod sequence;
pub mod text;
pub mod verbosity;
