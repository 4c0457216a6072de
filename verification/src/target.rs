//! Validation of a path: from what the file system said of it to a file that
//! may be echoed, or to the reason why it may not.

use crate::report::{
    missing_text, not_a_file_text, on_stderr, report_missing, report_not_a_file, Emission,
};
use vstd::prelude::*;

verus! {

/// What the file system said of a path, at the time it was asked.
#[derive(Clone, Copy, PartialEq, Eq, Debug, Structural)]
pub struct PathProbe {
    /// Something exists at the path.
    pub exists: bool,
    /// What exists at the path is a regular file.
    pub is_file: bool,
}

/// Why a path cannot be echoed.
#[derive(Clone, Copy, PartialEq, Eq, Debug, Structural)]
pub enum ValidationError {
    /// Nothing exists at the path.
    DoesNotExist,
    /// What exists at the path is a directory or something else that is no
    /// regular file.
    NotAFile,
}

/// A path that was found to exist and to name a regular file when the file
/// system was asked. Only [`validate`] makes one.
#[derive(Clone, PartialEq, Eq, Debug)]
pub struct FileTarget {
    path: String,
}

impl View for FileTarget {
    type V = Seq<char>;

    closed spec fn view(&self) -> Seq<char> {
        self.path@
    }
}

/// The outcome of the two checks, made in this order: does anything exist at
/// the path, and is it a regular file. `None` stands for a path that passes
/// both.
pub open spec fn verdict(probe: PathProbe) -> Option<ValidationError> {
    if !probe.exists {
        Some(ValidationError::DoesNotExist)
    } else if !probe.is_file {
        Some(ValidationError::NotAFile)
    } else {
        None
    }
}

/// The wording of a validation failure for `path`.
pub open spec fn validation_text(error: ValidationError, path: Seq<char>) -> Seq<char> {
    match error {
        ValidationError::DoesNotExist => missing_text(path),
        ValidationError::NotAFile => not_a_file_text(path),
    }
}

impl ValidationError {
    /// The diagnostic that tells the user of this failure for `path`.
    pub fn report(&self, path: &str) -> (emission: Emission)
        ensures
            emission@ == on_stderr(validation_text(*self, path@)),
    {
        match self {
            ValidationError::DoesNotExist => report_missing(path),
            ValidationError::NotAFile => report_not_a_file(path),
        }
    }
}

impl FileTarget {
    /// The path of the file.
    pub fn path(&self) -> (path: &str)
        ensures
            path@ == self@,
    {
        self.path.as_str()
    }
}

/// Decides from `probe` whether the file at `path` may be echoed.
pub fn validate(path: &str, probe: PathProbe) -> (result: Result<FileTarget, ValidationError>)
    ensures
        match result {
            Ok(target) => verdict(probe) is None && target@ == path@,
            Err(error) => verdict(probe) == Some(error),
        },
{
    if !probe.exists {
        Err(ValidationError::DoesNotExist)
    } else if !probe.is_file {
        Err(ValidationError::NotAFile)
    } else {
        Ok(FileTarget { path: String::from_str(path) })
    }
}

} // verus!
