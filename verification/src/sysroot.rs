//! Resolving the toolchain root from the environment, with the compiler's
//! own answer as the last resort.

use crate::error::InterceptError;
use vstd::prelude::*;
use vstd::string::StringExecFns;
use vstd::utf8::{decode_utf8, valid_utf8};

verus! {

/// The environment variables that the resolution reads, each `None` where
/// the variable is unset or not valid Unicode.
#[derive(Clone, Debug)]
pub struct ToolchainEnv {
    /// `RUSTUP_HOME`.
    pub rustup_home: Option<String>,
    /// `MULTIRUST_HOME`, the older name of the home variable.
    pub multirust_home: Option<String>,
    /// `RUSTUP_TOOLCHAIN`.
    pub rustup_toolchain: Option<String>,
    /// `MULTIRUST_TOOLCHAIN`, the older name of the toolchain variable.
    pub multirust_toolchain: Option<String>,
    /// `SYSROOT`, the direct override.
    pub sysroot: Option<String>,
    /// `RUSTC`, the compiler to ask where nothing else is set.
    pub rustc: Option<String>,
}

/// What the environment alone settles.
#[derive(Clone, Debug)]
pub enum RootQuery {
    /// The root is known.
    Resolved(String),
    /// The named compiler has to be asked with `--print sysroot`.
    AskCompiler(String),
}

/// A `RootQuery` as plain mathematical values.
pub enum RootPlan {
    Resolved(Seq<char>),
    AskCompiler(Seq<char>),
}

impl View for RootQuery {
    type V = RootPlan;

    open spec fn view(&self) -> RootPlan {
        match *self {
            RootQuery::Resolved(root) => RootPlan::Resolved(root@),
            RootQuery::AskCompiler(program) => RootPlan::AskCompiler(program@),
        }
    }
}

/// The characters of an optional string.
pub open spec fn text_of(o: Option<String>) -> Option<Seq<char>> {
    match o {
        Some(s) => Some(s@),
        None => None,
    }
}

/// The current name of a variable wins over its older name.
pub open spec fn preferred(current: Option<String>, older: Option<String>) -> Option<Seq<char>> {
    if current.is_some() {
        text_of(current)
    } else {
        text_of(older)
    }
}

/// The root that a home directory and a toolchain name give.
pub open spec fn paired_root(home: Seq<char>, toolchain: Seq<char>) -> Seq<char> {
    home + "/toolchains/"@ + toolchain
}

/// The fallback order: the home and toolchain pair first, then the direct
/// override, at last the compiler that `RUSTC` names, or `rustc`.
pub open spec fn planned_root(env: ToolchainEnv) -> RootPlan {
    let home = preferred(env.rustup_home, env.multirust_home);
    let toolchain = preferred(env.rustup_toolchain, env.multirust_toolchain);
    if home.is_some() && toolchain.is_some() {
        RootPlan::Resolved(paired_root(home.unwrap(), toolchain.unwrap()))
    } else if env.sysroot.is_some() {
        RootPlan::Resolved(env.sysroot.unwrap()@)
    } else if env.rustc.is_some() {
        RootPlan::AskCompiler(env.rustc.unwrap()@)
    } else {
        RootPlan::AskCompiler("rustc"@)
    }
}

/// The White_Space property of Unicode.
pub open spec fn is_white_space(c: char) -> bool {
    let v = c as u32;
    ||| 0x09 <= v <= 0x0d
    ||| v == 0x20
    ||| v == 0x85
    ||| v == 0xa0
    ||| v == 0x1680
    ||| 0x2000 <= v <= 0x200a
    ||| v == 0x2028
    ||| v == 0x2029
    ||| v == 0x202f
    ||| v == 0x205f
    ||| v == 0x3000
}

/// `s` without its leading white space.
pub open spec fn trimmed_start(s: Seq<char>) -> Seq<char>
    decreases s.len(),
{
    if s.len() > 0 && is_white_space(s.first()) {
        trimmed_start(s.drop_first())
    } else {
        s
    }
}

/// `s` without its trailing white space.
pub open spec fn trimmed_end(s: Seq<char>) -> Seq<char>
    decreases s.len(),
{
    if s.len() > 0 && is_white_space(s.last()) {
        trimmed_end(s.drop_last())
    } else {
        s
    }
}

/// `s` without leading and trailing white space.
pub open spec fn trimmed(s: Seq<char>) -> Seq<char> {
    trimmed_end(trimmed_start(s))
}

/// What the compiler's answer gives: nothing where it could not be run or
/// its output is not UTF-8, else the output without surrounding white space.
pub open spec fn root_of_output(output: Option<Vec<u8>>) -> Option<Seq<char>> {
    match output {
        Some(bytes) => if valid_utf8(bytes@) {
            Some(trimmed(decode_utf8(bytes@)))
        } else {
            None
        },
        None => None,
    }
}

/// What the resolution ends with: the root that the environment settled,
/// else what the compiler's answer gives.
pub open spec fn concluded(plan: RootPlan, output: Option<Vec<u8>>) -> Option<Seq<char>> {
    match plan {
        RootPlan::Resolved(known) => Some(known),
        RootPlan::AskCompiler(_) => root_of_output(output),
    }
}

/// The environment holds a home directory and a toolchain name, each under
/// its current or its older name.
pub open spec fn has_pair(env: ToolchainEnv) -> bool {
    &&& env.rustup_home.is_some() || env.multirust_home.is_some()
    &&& env.rustup_toolchain.is_some() || env.multirust_toolchain.is_some()
}

/// The fallback order of the resolution. A home and toolchain pair wins,
/// whether or not the override is set. Without a pair the override wins.
/// With neither, the compiler is asked and its answer decides; where that
/// fails too, because it could not be run or did not print UTF-8, the
/// resolution fails.
pub proof fn lemma_fallback_order(env: ToolchainEnv, output: Option<Vec<u8>>)
    ensures
        has_pair(env) ==> concluded(planned_root(env), output) == Some(
            paired_root(
                preferred(env.rustup_home, env.multirust_home).unwrap(),
                preferred(env.rustup_toolchain, env.multirust_toolchain).unwrap(),
            ),
        ),
        !has_pair(env) && env.sysroot.is_some() ==> concluded(planned_root(env), output) == Some(
            env.sysroot.unwrap()@,
        ),
        !has_pair(env) && env.sysroot.is_none() ==> planned_root(env) is AskCompiler && concluded(
            planned_root(env),
            output,
        ) == root_of_output(output),
        !has_pair(env) && env.sysroot.is_none() && (output.is_none() || !valid_utf8(
            output.unwrap()@,
        )) ==> concluded(planned_root(env), output).is_none(),
{
}

/// Calls `String::from_utf8` of std. Taken on trust from its documentation:
/// it gives the text that the bytes encode, and fails exactly where they
/// are not valid UTF-8.
#[verifier::external_body]
fn decode_output(bytes: Vec<u8>) -> (text: Option<String>)
    ensures
        text.is_some() == valid_utf8(bytes@),
        text.is_some() ==> text.unwrap()@ == decode_utf8(bytes@),
{
    String::from_utf8(bytes).ok()
}

/// Calls `str::trim` of std. Taken on trust from its documentation: it
/// gives the slice without leading and trailing white space, white space
/// being the characters with the White_Space property of Unicode.
#[verifier::external_body]
fn trim_text<'a>(text: &'a str) -> (inner: &'a str)
    ensures
        inner@ == trimmed(text@),
{
    text.trim()
}

fn prefer<'a>(current: &'a Option<String>, older: &'a Option<String>) -> (chosen: &'a Option<String>)
    ensures
        text_of(*chosen) == preferred(*current, *older),
        chosen.is_some() == (current.is_some() || older.is_some()),
{
    if current.is_some() {
        current
    } else {
        older
    }
}

/// Settles the toolchain root as far as the environment can: the home and
/// toolchain pair wins over the override, and the override over asking the
/// compiler. Reads nothing but `env`.
pub fn current_sysroot(env: &ToolchainEnv) -> (step: RootQuery)
    ensures
        step@ == planned_root(*env),
{
    let home = prefer(&env.rustup_home, &env.multirust_home);
    let toolchain = prefer(&env.rustup_toolchain, &env.multirust_toolchain);
    match (home, toolchain) {
        (Some(home), Some(toolchain)) => {
            let mut root: String = home.clone();
            root.append("/toolchains/");
            root.append(toolchain.as_str());
            RootQuery::Resolved(root)
        },
        _ => match &env.sysroot {
            Some(root) => RootQuery::Resolved(root.clone()),
            None => match &env.rustc {
                Some(program) => RootQuery::AskCompiler(program.clone()),
                None => RootQuery::AskCompiler("rustc".to_owned()),
            },
        },
    }
}

/// Reads the root from what the compiler printed. `output` is its standard
/// output, or `None` where the compiler could not be run.
pub fn sysroot_from_output(output: Option<Vec<u8>>) -> (root: Option<String>)
    ensures
        text_of(root) == root_of_output(output),
{
    match output {
        Some(bytes) => match decode_output(bytes) {
            Some(text) => Some(trim_text(text.as_str()).to_owned()),
            None => None,
        },
        None => None,
    }
}

/// Concludes the resolution: a root that the environment settled stands,
/// whatever `output` holds; else the compiler's answer decides, and the
/// resolution fails where that gives nothing.
pub fn resolve_root(step: RootQuery, output: Option<Vec<u8>>) -> (root: Result<String, InterceptError>)
    ensures
        root.is_ok() == concluded(step@, output).is_some(),
        match root {
            Ok(found) => Some(found@) == concluded(step@, output),
            Err(e) => e == InterceptError::ResolutionFailure,
        },
{
    match step {
        RootQuery::Resolved(known) => Ok(known),
        RootQuery::AskCompiler(_) => match sysroot_from_output(output) {
            Some(answer) => Ok(answer),
            None => Err(InterceptError::ResolutionFailure),
        },
    }
}

} // verus!
