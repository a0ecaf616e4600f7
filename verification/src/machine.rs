//! The stages that the handling of one build unit goes through.

use crate::classifier::{classify, kind_of, BuildUnit, UnitKind};
use crate::error::InterceptError;
use crate::executor::{
    embedded_status, engine_status, external_status, names_out_dir, names_output_directory,
    process_status, routes, Dispatch, MyExecutor, ProcessOutcome,
};
use crate::invocation::Invocation;
use crate::rewriter::rewrite;
use vstd::prelude::*;

verus! {

/// Where the handling of a unit stands.
#[derive(Debug)]
pub enum Stage {
    /// The unit was received; nothing was decided.
    Idle,
    /// The invocation was accepted; the unit is to be classified.
    Classifying,
    /// The unit is classified; its invocation is to be rewritten.
    Rewriting(UnitKind),
    /// The rewritten invocation is out; its end is awaited.
    Dispatching(Dispatch),
    /// The unit is done, with the status that goes to the orchestrator.
    Completed(Result<(), InterceptError>),
}

/// What moves the handling on.
#[derive(Clone, Copy, Debug, PartialEq, Eq)]
pub enum Event {
    /// Nothing happened outside: take the next step.
    Advance,
    /// The child process ended, or could not be started.
    ProcessEnded(ProcessOutcome),
    /// The embedded engine returned; `true` where it ran through every phase
    /// without an error.
    EngineEnded(bool),
}

/// The position of a stage in the order of the stages.
pub open spec fn rank(stage: Stage) -> nat {
    match stage {
        Stage::Idle => 0,
        Stage::Classifying => 1,
        Stage::Rewriting(_) => 2,
        Stage::Dispatching(_) => 3,
        Stage::Completed(_) => 4,
    }
}

impl MyExecutor {
    /// Takes the handling of `unit` one stage further and never back.
    ///
    /// From `Idle` an invocation that names an output directory goes to
    /// `Classifying`, any other straight to `Completed` with
    /// `MissingRequiredArgument`. `Classifying` settles the kind,
    /// `Rewriting` gives the dispatch. `Dispatching` waits: a child process
    /// ends it with `ProcessEnded`, the embedded engine with `EngineEnded`,
    /// and any other event leaves the stage as it is. `Completed` stays.
    pub fn step(&self, stage: Stage, cmd: &Invocation, unit: &BuildUnit, event: Event) -> (next: Stage)
        requires
            cmd.wf(),
        ensures
            rank(next) >= rank(stage),
            rank(next) <= rank(stage) + 1 || next == Stage::Completed(
                Err(InterceptError::MissingRequiredArgument),
            ),
            match stage {
                Stage::Idle => next == if names_out_dir(cmd@.args) {
                    Stage::Classifying
                } else {
                    Stage::Completed(Err(InterceptError::MissingRequiredArgument))
                },
                Stage::Classifying => next == Stage::Rewriting(kind_of(unit.origin)),
                Stage::Rewriting(kind) => match next {
                    Stage::Dispatching(dispatch) => routes(dispatch, *cmd, kind, self.sysroot@),
                    _ => false,
                },
                Stage::Dispatching(Dispatch::External(_)) => match event {
                    Event::ProcessEnded(outcome) => next == Stage::Completed(
                        process_status(outcome),
                    ),
                    _ => next == stage,
                },
                Stage::Dispatching(Dispatch::Embedded(_)) => match event {
                    Event::EngineEnded(completed) => next == Stage::Completed(
                        engine_status(completed),
                    ),
                    _ => next == stage,
                },
                Stage::Completed(_) => next == stage,
            },
    {
        match stage {
            Stage::Idle => {
                if names_output_directory(cmd) {
                    Stage::Classifying
                } else {
                    Stage::Completed(Err(InterceptError::MissingRequiredArgument))
                }
            },
            Stage::Classifying => Stage::Rewriting(classify(unit)),
            Stage::Rewriting(kind) => {
                let inv = rewrite(cmd, kind, self.sysroot.as_str());
                match kind {
                    UnitKind::Dependency => Stage::Dispatching(Dispatch::External(inv)),
                    UnitKind::Primary => Stage::Dispatching(Dispatch::Embedded(inv)),
                }
            },
            Stage::Dispatching(Dispatch::External(inv)) => match event {
                Event::ProcessEnded(outcome) => Stage::Completed(external_status(outcome)),
                _ => Stage::Dispatching(Dispatch::External(inv)),
            },
            Stage::Dispatching(Dispatch::Embedded(inv)) => match event {
                Event::EngineEnded(completed) => Stage::Completed(embedded_status(completed)),
                _ => Stage::Dispatching(Dispatch::Embedded(inv)),
            },
            Stage::Completed(status) => Stage::Completed(status),
        }
    }
}

} // verus!
