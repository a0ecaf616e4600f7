//! The ways in which handling a build unit fails.

use vstd::prelude::*;

verus! {

/// A failure of the session or of one unit.
#[derive(Clone, Copy, Debug, PartialEq, Eq)]
pub enum InterceptError {
    /// No source yielded a toolchain root. Fatal for the whole session.
    ResolutionFailure,
    /// The invocation lacks the output-directory flag. Fatal for the unit.
    MissingRequiredArgument,
    /// The child process could not be started.
    SpawnFailure,
    /// The child process ran and did not succeed; carries its exit code
    /// where it has one.
    NonZeroExit(Option<i32>),
    /// A phase hook of the embedded engine asked to stop.
    EngineFailure,
}

impl InterceptError {
    /// A one-line description of the failure.
    pub fn message(&self) -> (text: String)
        ensures
            text@ == match *self {
                InterceptError::ResolutionFailure => "the toolchain root cannot be determined"@,
                InterceptError::MissingRequiredArgument => "no out-dir in rustc command line"@,
                InterceptError::SpawnFailure => "the compiler process could not be started"@,
                InterceptError::NonZeroExit(_) => "the compiler process failed"@,
                InterceptError::EngineFailure => "the analysis engine stopped early"@,
            },
    {
        match self {
            InterceptError::ResolutionFailure => "the toolchain root cannot be determined".to_owned(),
            InterceptError::MissingRequiredArgument => "no out-dir in rustc command line".to_owned(),
            InterceptError::SpawnFailure => "the compiler process could not be started".to_owned(),
            InterceptError::NonZeroExit(_) => "the compiler process failed".to_owned(),
            InterceptError::EngineFailure => "the analysis engine stopped early".to_owned(),
        }
    }
}

} // verus!
