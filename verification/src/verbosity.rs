//! How much is logged: from the counts of `-v` and `-q` to a level filter.

use vstd::prelude::*;

verus! {

/// A logging level, from the most to the least severe.
#[derive(Clone, Copy, Debug, PartialEq, Eq, Structural)]
pub enum Level {
    Error,
    Warn,
    Info,
    Debug,
    Trace,
}

/// The most verbose level that is still logged, or nothing at all.
#[derive(Clone, Copy, Debug, PartialEq, Eq, Structural)]
pub enum LevelFilter {
    Off,
    Error,
    Warn,
    Info,
    Debug,
    Trace,
}

/// How often `--verbose` and `--quiet` were given.
#[derive(Clone, Copy, Debug, PartialEq, Eq, Structural)]
pub struct Verbosity {
    pub verbose: u8,
    pub quiet: u8,
}

/// The level that stands at a step of the scale: below the first step
/// nothing is logged, above the last everything is.
pub open spec fn level_at(step: int) -> Option<Level> {
    if step <= 0 {
        None
    } else if step == 1 {
        Some(Level::Error)
    } else if step == 2 {
        Some(Level::Warn)
    } else if step == 3 {
        Some(Level::Info)
    } else if step == 4 {
        Some(Level::Debug)
    } else {
        Some(Level::Trace)
    }
}

/// The filter that lets a level and everything more severe through.
pub open spec fn filter_of(level: Option<Level>) -> LevelFilter {
    match level {
        None => LevelFilter::Off,
        Some(Level::Error) => LevelFilter::Error,
        Some(Level::Warn) => LevelFilter::Warn,
        Some(Level::Info) => LevelFilter::Info,
        Some(Level::Debug) => LevelFilter::Debug,
        Some(Level::Trace) => LevelFilter::Trace,
    }
}

/// Calls `clap_verbosity_flag::Verbosity::<InfoLevel>::new` and then
/// `log_level` on what it made.
///
/// Trusted: starting from `Info`, the third step of the scale, every
/// `--verbose` goes one step up and every `--quiet` one step down, and the
/// level returned is the one at the step reached.
#[verifier::external_body]
fn flag_level(verbose: u8, quiet: u8) -> (level: Option<Level>)
    ensures
        level == level_at(3 + verbose - quiet),
{
    let flags = clap_verbosity_flag::Verbosity::<clap_verbosity_flag::InfoLevel>::new(
        verbose,
        quiet,
    );
    match flags.log_level() {
        None => None,
        Some(log::Level::Error) => Some(Level::Error),
        Some(log::Level::Warn) => Some(Level::Warn),
        Some(log::Level::Info) => Some(Level::Info),
        Some(log::Level::Debug) => Some(Level::Debug),
        Some(log::Level::Trace) => Some(Level::Trace),
    }
}

/// The filter for a level: `Off` where there is none.
pub fn level_filter(level: Option<Level>) -> (filter: LevelFilter)
    ensures
        filter == filter_of(level),
{
    match level {
        None => LevelFilter::Off,
        Some(Level::Error) => LevelFilter::Error,
        Some(Level::Warn) => LevelFilter::Warn,
        Some(Level::Info) => LevelFilter::Info,
        Some(Level::Debug) => LevelFilter::Debug,
        Some(Level::Trace) => LevelFilter::Trace,
    }
}

impl Verbosity {
    /// The level these flags ask for; `None` where they ask for silence.
    pub open spec fn level(self) -> Option<Level> {
        level_at(3 + self.verbose - self.quiet)
    }

    /// The flags, from the number of times each was given.
    pub fn new(verbose: u8, quiet: u8) -> (verbosity: Verbosity)
        ensures
            verbosity == (Verbosity { verbose, quiet }),
    {
        Verbosity { verbose, quiet }
    }

    /// The level to log at, `Info` where no flag was given.
    pub fn log_level(&self) -> (level: Option<Level>)
        ensures
            level == self.level(),
    {
        flag_level(self.verbose, self.quiet)
    }

    /// The filter that logging starts with where `RUST_LOG` names no other.
    pub fn default_filter(&self) -> (filter: LevelFilter)
        ensures
            filter == filter_of(self.level()),
    {
        level_filter(self.log_level())
    }
}

} // verus!
