//! Adjusting an invocation before it runs.

use crate::classifier::UnitKind;
use crate::config::{config_text, reduced_config, AnalysisConfig};
use crate::invocation::{Invocation, InvocationView};
use crate::scanner::{flag_value, has_flag, lemma_scan_of_extended, value_follows};
use vstd::prelude::*;

verus! {

/// The flag that names the toolchain root.
pub open spec fn sysroot_flag() -> Seq<char> {
    "--sysroot"@
}

/// The environment key that carries the capture configuration.
pub open spec fn config_key() -> Seq<char> {
    "RUST_SAVE_ANALYSIS_CONFIG"@
}

/// The adjusted invocation: the same program; the same arguments with the
/// root flag and the root appended; for a dependency the environment with
/// the reduced configuration set, for the primary unit the same environment.
pub open spec fn rewritten(inv: InvocationView, kind: UnitKind, root: Seq<char>) -> InvocationView {
    InvocationView {
        program: inv.program,
        args: inv.args + seq![sysroot_flag(), root],
        env: match kind {
            UnitKind::Dependency => inv.env.insert(config_key(), config_text(reduced_config())),
            UnitKind::Primary => inv.env,
        },
    }
}

/// Rewriting keeps what the scanner finds: a flag that the invocation held
/// with its value is found in the rewritten arguments with the same value,
/// whatever the kind of the unit and the root.
pub proof fn lemma_rewrite_keeps_flags(
    inv: InvocationView,
    kind: UnitKind,
    root: Seq<char>,
    flag: Seq<char>,
)
    requires
        has_flag(inv.args, flag),
        value_follows(inv.args, flag),
    ensures
        has_flag(rewritten(inv, kind, root).args, flag),
        value_follows(rewritten(inv, kind, root).args, flag),
        flag_value(rewritten(inv, kind, root).args, flag) == flag_value(inv.args, flag),
{
    lemma_scan_of_extended(inv.args, seq![sysroot_flag(), root], flag);
}

/// A copy of `args`, item by item.
pub fn copy_args(args: &Vec<String>) -> (copy: Vec<String>)
    ensures
        copy@ == args@,
{
    let mut copy: Vec<String> = Vec::new();
    let mut i: usize = 0;
    while i < args.len()
        invariant
            i <= args.len(),
            copy@ == args@.take(i as int),
        decreases args.len() - i,
    {
        copy.push(args[i].clone());
        assert(copy@ =~= args@.take(i + 1));
        i += 1;
    }
    assert(args@.take(args@.len() as int) =~= args@);
    copy
}

/// A copy of the environment entries, item by item.
pub fn copy_env(env: &Vec<(String, String)>) -> (copy: Vec<(String, String)>)
    ensures
        copy@ == env@,
{
    let mut copy: Vec<(String, String)> = Vec::new();
    let mut i: usize = 0;
    while i < env.len()
        invariant
            i <= env.len(),
            copy@ == env@.take(i as int),
        decreases env.len() - i,
    {
        copy.push((env[i].0.clone(), env[i].1.clone()));
        assert(copy@ =~= env@.take(i + 1));
        i += 1;
    }
    assert(env@.take(env@.len() as int) =~= env@);
    copy
}

/// Produces the adjusted invocation and leaves `inv` as it is. The root
/// flag and `root` are appended to the arguments, none of which is removed
/// or moved. A dependency gets the reduced capture configuration under the
/// configuration key; the environment of the primary unit is not touched,
/// so it holds that key only where `inv` already did.
pub fn rewrite(inv: &Invocation, kind: UnitKind, root: &str) -> (out: Invocation)
    requires
        inv.wf(),
    ensures
        out.wf(),
        out@ == rewritten(inv@, kind, root@),
        out@.program == inv@.program,
        out@.args.len() == inv@.args.len() + 2,
        out@.args.take(inv@.args.len() as int) == inv@.args,
        out@.args[inv@.args.len() as int] == sysroot_flag(),
        out@.args[inv@.args.len() as int + 1] == root@,
        kind == UnitKind::Dependency ==> out@.env.contains_key(config_key()) && out@.env[config_key()]
            == config_text(reduced_config()),
        kind == UnitKind::Dependency ==> forall|k: Seq<char>|
            k != config_key() ==> (out@.env.contains_key(k) == inv@.env.contains_key(k)
                && out@.env[k] == inv@.env[k]),
        kind == UnitKind::Primary ==> out@.env == inv@.env,
        kind == UnitKind::Primary && !inv@.env.contains_key(config_key()) ==> !out@.env.contains_key(
            config_key(),
        ),
{
    let mut args = copy_args(&inv.args);
    args.push("--sysroot".to_owned());
    args.push(root.to_owned());
    let mut out = Invocation { program: inv.program.clone(), args, env: copy_env(&inv.env) };
    assert(out@.args =~= inv@.args + seq![sysroot_flag(), root@]);
    assert(out@.args.take(inv@.args.len() as int) =~= inv@.args);
    match kind {
        UnitKind::Dependency => {
            let config = AnalysisConfig::reduced().to_json();
            out.set_env("RUST_SAVE_ANALYSIS_CONFIG", config.as_str());
        },
        UnitKind::Primary => {},
    }
    out
}

} // verus!
