//! The ways in which a build fails. Every one of them ends the build.

use vstd::prelude::*;
use crate::environment::Variable;
use crate::targets::Target;
use crate::text::{i32_to_string, signed_decimal_text};

verus! {

/// Why a build ended without a library.
#[derive(Debug, Clone, PartialEq, Eq)]
pub enum BuildError {
    /// A variable that the build cannot do without is not set.
    MissingEnvironment { variable: Variable },
    /// CMake did not build a target.
    ExternalBuildFailure { target: Target },
    /// The archiver did not exit with status zero. `status` is what it exited
    /// with; there is none where a signal ended it.
    ArchiverFailure { status: Option<i32> },
    /// A placeholder archive was not there and has now been made: it is to be
    /// looked at and kept before the build is run again.
    PlaceholderArtifactDrift { archive: String },
}

/// A failure with its texts as plain sequences of characters.
pub enum BuildErrorView {
    MissingEnvironment { variable: Variable },
    ExternalBuildFailure { target: Target },
    ArchiverFailure { status: Option<i32> },
    PlaceholderArtifactDrift { archive: Seq<char> },
}

impl View for BuildError {
    type V = BuildErrorView;

    open spec fn view(&self) -> BuildErrorView {
        match self {
            BuildError::MissingEnvironment { variable } => BuildErrorView::MissingEnvironment {
                variable: *variable,
            },
            BuildError::ExternalBuildFailure { target } => BuildErrorView::ExternalBuildFailure {
                target: *target,
            },
            BuildError::ArchiverFailure { status } => BuildErrorView::ArchiverFailure {
                status: *status,
            },
            BuildError::PlaceholderArtifactDrift { archive } => {
                BuildErrorView::PlaceholderArtifactDrift { archive: archive@ }
            },
        }
    }
}

/// The failure that a result holds, if it holds one.
pub open spec fn failure_of<T>(result: Result<T, BuildError>) -> Option<BuildErrorView> {
    match result {
        Ok(_) => None,
        Err(error) => Some(error@),
    }
}

impl BuildErrorView {
    /// What the operator is told.
    pub open spec fn message(self) -> Seq<char> {
        match self {
            BuildErrorView::MissingEnvironment { variable } => "environment variable `"@
                + variable.text() + "` is not set"@,
            BuildErrorView::ExternalBuildFailure { target } => "building target `"@
                + target.text() + "` failed"@,
            BuildErrorView::ArchiverFailure { status } => match status {
                Some(code) => "the archiver exited with status "@ + signed_decimal_text(
                    code as int,
                ),
                None => "the archiver was ended by a signal"@,
            },
            BuildErrorView::PlaceholderArtifactDrift { archive } => archive
                + " didn't previously exist; please inspect the new file and `git add` it"@,
        }
    }
}

impl BuildError {
    /// What the operator is told.
    pub fn message(&self) -> (message: String)
        ensures
            message@ == self@.message(),
    {
        match self {
            BuildError::MissingEnvironment { variable } => {
                let mut message = String::from_str("environment variable `");
                message.append(variable.name());
                message.append("` is not set");
                message
            },
            BuildError::ExternalBuildFailure { target } => {
                let mut message = String::from_str("building target `");
                message.append(target.name());
                message.append("` failed");
                message
            },
            BuildError::ArchiverFailure { status } => match status {
                Some(code) => {
                    let mut message = String::from_str("the archiver exited with status ");
                    let digits = i32_to_string(*code);
                    message.append(digits.as_str());
                    message
                },
                None => String::from_str("the archiver was ended by a signal"),
            },
            BuildError::PlaceholderArtifactDrift { archive } => {
                let mut message = String::from_str(archive.as_str());
                message.append(
                    " didn't previously exist; please inspect the new file and `git add` it",
                );
                message
            },
        }
    }

    /// A copy of the failure.
    pub fn duplicate(&self) -> (copy: BuildError)
        ensures
            copy@ == self@,
    {
        match self {
            BuildError::MissingEnvironment { variable } => BuildError::MissingEnvironment {
                variable: *variable,
            },
            BuildError::ExternalBuildFailure { target } => BuildError::ExternalBuildFailure {
                target: *target,
            },
            BuildError::ArchiverFailure { status } => BuildError::ArchiverFailure {
                status: *status,
            },
            BuildError::PlaceholderArtifactDrift { archive } => {
                BuildError::PlaceholderArtifactDrift { archive: archive.clone() }
            },
        }
    }
}

} // verus!
