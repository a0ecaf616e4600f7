//! Routing each build unit: to a child process, or to the embedded
//! analysis engine.

use crate::classifier::{classify, kind_of, BuildUnit, UnitKind};
use crate::error::InterceptError;
use crate::invocation::Invocation;
use crate::rewriter::{copy_args, rewrite, rewritten};
use crate::scanner::{arg_views, has_flag, has_value_after, parse_arg, value_follows};
use vstd::prelude::*;

verus! {

/// The flag that names the output directory, which every invocation holds.
pub open spec fn out_dir_flag() -> Seq<char> {
    "--out-dir"@
}

/// The arguments name an output directory: the flag occurs, and a value
/// stands behind its first occurrence.
pub open spec fn names_out_dir(args: Seq<Seq<char>>) -> bool {
    has_flag(args, out_dir_flag()) && value_follows(args, out_dir_flag())
}

/// Whether the invocation names an output directory.
pub fn names_output_directory(cmd: &Invocation) -> (named: bool)
    ensures
        named == names_out_dir(cmd@.args),
{
    if has_value_after(cmd.args.as_slice(), "--out-dir") {
        parse_arg(cmd.args.as_slice(), "--out-dir").is_some()
    } else {
        false
    }
}

/// Where a unit goes, with its adjusted invocation.
#[derive(Clone, Debug)]
pub enum Dispatch {
    /// Run the invocation as a child process and wait for it.
    External(Invocation),
    /// Run the invocation in process, with the analysis hooks.
    Embedded(Invocation),
}

/// `dispatch` is the route of a unit of kind `kind`: a child process for a
/// dependency, the embedded engine for the primary unit, each with the
/// rewritten form of `cmd`.
pub open spec fn routes(
    dispatch: Dispatch,
    cmd: Invocation,
    kind: UnitKind,
    root: Seq<char>,
) -> bool {
    match dispatch {
        Dispatch::External(inv) => kind == UnitKind::Dependency && inv.wf() && inv@ == rewritten(
            cmd@,
            kind,
            root,
        ),
        Dispatch::Embedded(inv) => kind == UnitKind::Primary && inv.wf() && inv@ == rewritten(
            cmd@,
            kind,
            root,
        ),
    }
}

/// How the child process of a dependency unit ended.
#[derive(Clone, Copy, Debug, PartialEq, Eq)]
pub enum ProcessOutcome {
    /// The process could not be started.
    SpawnFailed,
    /// The process ran; `success` is its own verdict, `code` its exit code
    /// where it has one.
    Exited { success: bool, code: Option<i32> },
}

/// The status that ends a dependency unit: success where the process ran
/// and succeeded, `SpawnFailure` where it could not be started, and
/// `NonZeroExit` with its code where it ran and failed.
pub open spec fn process_status(outcome: ProcessOutcome) -> Result<(), InterceptError> {
    match outcome {
        ProcessOutcome::SpawnFailed => Err(InterceptError::SpawnFailure),
        ProcessOutcome::Exited { success, code } => if success {
            Ok(())
        } else {
            Err(InterceptError::NonZeroExit(code))
        },
    }
}

/// The status that ends the primary unit: success where every phase hook
/// let the engine go on and the engine ended without an error, else
/// `EngineFailure`.
pub open spec fn engine_status(completed: bool) -> Result<(), InterceptError> {
    if completed {
        Ok(())
    } else {
        Err(InterceptError::EngineFailure)
    }
}

/// The executor of a session. It is made with the resolved toolchain root,
/// so no unit is handled before the root is known.
#[derive(Clone, Debug)]
pub struct MyExecutor {
    /// The toolchain root of the session.
    pub sysroot: String,
}

impl MyExecutor {
    /// The executor of a session whose toolchain root is `sysroot`.
    pub fn new(sysroot: String) -> (executor: MyExecutor)
        ensures
            executor.sysroot == sysroot,
    {
        MyExecutor { sysroot }
    }

    /// Handles one unit up to its dispatch. An invocation that names no
    /// output directory, because the flag is absent or because no value
    /// stands behind its first occurrence, is refused as
    /// `MissingRequiredArgument`, and nothing is to be run. Else the unit is
    /// classified by its source origin and its invocation rewritten: a
    /// dependency goes to a child process, the primary unit to the embedded
    /// engine. `cmd` stays as it is.
    pub fn exec(&self, cmd: &Invocation, unit: &BuildUnit) -> (routed: Result<Dispatch, InterceptError>)
        requires
            cmd.wf(),
        ensures
            routed.is_err() == !names_out_dir(cmd@.args),
            match routed {
                Err(e) => e == InterceptError::MissingRequiredArgument,
                Ok(dispatch) => routes(dispatch, *cmd, kind_of(unit.origin), self.sysroot@),
            },
    {
        if !names_output_directory(cmd) {
            return Err(InterceptError::MissingRequiredArgument);
        }
        let kind = classify(unit);
        let inv = rewrite(cmd, kind, self.sysroot.as_str());
        match kind {
            UnitKind::Dependency => Ok(Dispatch::External(inv)),
            UnitKind::Primary => Ok(Dispatch::Embedded(inv)),
        }
    }
}

/// The command line that the embedded engine takes: the program first,
/// then the arguments in order.
pub fn engine_command_line(inv: &Invocation) -> (line: Vec<String>)
    ensures
        arg_views(line@) == seq![inv@.program] + inv@.args,
{
    let mut line = copy_args(&inv.args);
    line.insert(0, inv.program.clone());
    assert(arg_views(line@) =~= seq![inv@.program] + inv@.args);
    line
}

/// The status of a dependency unit, from how its child process ended.
pub fn external_status(outcome: ProcessOutcome) -> (status: Result<(), InterceptError>)
    ensures
        status == process_status(outcome),
{
    match outcome {
        ProcessOutcome::SpawnFailed => Err(InterceptError::SpawnFailure),
        ProcessOutcome::Exited { success, code } => if success {
            Ok(())
        } else {
            Err(InterceptError::NonZeroExit(code))
        },
    }
}

/// The status of the primary unit, from how the embedded engine ended.
pub fn embedded_status(completed: bool) -> (status: Result<(), InterceptError>)
    ensures
        status == engine_status(completed),
{
    if completed {
        Ok(())
    } else {
        Err(InterceptError::EngineFailure)
    }
}

} // verus!
