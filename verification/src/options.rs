//! The options of one bootstrap, checked once and then only read.

use crate::verbosity::Verbosity;
use vstd::prelude::*;

verus! {

/// Why a command line is turned down.
#[derive(Clone, Copy, Debug, PartialEq, Eq, Structural)]
pub enum UsageError {
    /// `--bin` and `--lib` were both given.
    ConflictingTemplates,
    /// The target path was not given.
    MissingPath,
}

/// What was asked for: the template, the package name, where the project
/// goes, and how much to log.
///
/// Only [`Options::new`] makes a value of this type, so every command of a
/// bootstrap comes from flags that were checked.
#[derive(Debug, PartialEq, Eq)]
pub struct Options {
    bin: bool,
    lib: bool,
    name: Option<String>,
    path: String,
    verbosity: Verbosity,
}

/// The options as plain values.
pub struct OptionsView {
    pub bin: bool,
    pub lib: bool,
    pub name: Option<Seq<char>>,
    pub path: Seq<char>,
    pub verbosity: Verbosity,
}

impl OptionsView {
    /// At most one template is chosen.
    pub open spec fn wf(self) -> bool {
        !(self.bin && self.lib)
    }
}

/// What the flags of a command line amount to: the options they stand for,
/// or the reason for turning them down. A conflict between the templates is
/// reported before a missing path.
pub open spec fn checked(
    bin: bool,
    lib: bool,
    name: Option<Seq<char>>,
    path: Option<Seq<char>>,
    verbosity: Verbosity,
) -> Result<OptionsView, UsageError> {
    if bin && lib {
        Err(UsageError::ConflictingTemplates)
    } else {
        match path {
            None => Err(UsageError::MissingPath),
            Some(path) => Ok(OptionsView { bin, lib, name, path, verbosity }),
        }
    }
}

impl View for Options {
    type V = OptionsView;

    closed spec fn view(&self) -> OptionsView {
        OptionsView {
            bin: self.bin,
            lib: self.lib,
            name: self.name.deep_view(),
            path: self.path@,
            verbosity: self.verbosity,
        }
    }
}

impl Options {
    #[verifier::type_invariant]
    spec fn one_template(self) -> bool {
        !(self.bin && self.lib)
    }

    /// Checks the flags as they were read and keeps them if they agree.
    pub fn new(
        bin: bool,
        lib: bool,
        name: Option<String>,
        path: Option<String>,
        verbosity: Verbosity,
    ) -> (options: Result<Options, UsageError>)
        ensures
            bin && lib ==> options matches Err(UsageError::ConflictingTemplates),
            options is Ok <==> !(bin && lib) && path is Some,
            match options {
                Ok(options) => checked(bin, lib, name.deep_view(), path.deep_view(), verbosity)
                    == Ok::<OptionsView, UsageError>(options@),
                Err(error) => checked(bin, lib, name.deep_view(), path.deep_view(), verbosity)
                    == Err::<OptionsView, UsageError>(error),
            },
    {
        if bin && lib {
            return Err(UsageError::ConflictingTemplates);
        }
        match path {
            None => Err(UsageError::MissingPath),
            Some(path) => Ok(Options { bin, lib, name, path, verbosity }),
        }
    }

    /// Whether the binary template was asked for. Never together with the
    /// library template.
    pub fn bin(&self) -> (bin: bool)
        ensures
            bin == self@.bin,
            self@.wf(),
    {
        proof {
            use_type_invariant(self);
        }
        self.bin
    }

    /// Whether the library template was asked for. Never together with the
    /// binary template.
    pub fn lib(&self) -> (lib: bool)
        ensures
            lib == self@.lib,
            self@.wf(),
    {
        proof {
            use_type_invariant(self);
        }
        self.lib
    }

    /// The package name, where one was given.
    pub fn name(&self) -> (name: &Option<String>)
        ensures
            name.deep_view() == self@.name,
    {
        &self.name
    }

    /// The directory of the new project.
    pub fn path(&self) -> (path: &String)
        ensures
            path@ == self@.path,
    {
        &self.path
    }

    /// How often `--verbose` and `--quiet` were given.
    pub fn verbosity(&self) -> (verbosity: Verbosity)
        ensures
            verbosity == self@.verbosity,
    {
        self.verbosity
    }
}

} // verus!
