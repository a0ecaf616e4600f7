//! The capture configuration that dependency units are built with.

use vstd::prelude::*;
use vstd::string::StringExecFns;

verus! {

/// What the analysis of one unit is to capture.
#[derive(Clone, Copy, Debug, PartialEq, Eq, Structural)]
pub struct AnalysisConfig {
    /// Only items reachable from the crate root.
    pub reachable_only: bool,
    /// The whole documentation of each item, not only its summary.
    pub full_docs: bool,
    /// Only public items.
    pub pub_only: bool,
    /// The unit is part of the toolchain's own distribution.
    pub distro_crate: bool,
    /// Signature information.
    pub signatures: bool,
    /// Borrow data.
    pub borrow_data: bool,
}

/// The reduced capture that every dependency unit gets.
pub open spec fn reduced_config() -> AnalysisConfig {
    AnalysisConfig {
        reachable_only: true,
        full_docs: true,
        pub_only: true,
        distro_crate: false,
        signatures: false,
        borrow_data: false,
    }
}

/// The text of a boolean field.
pub open spec fn bool_text(b: bool) -> Seq<char> {
    if b {
        "true"@
    } else {
        "false"@
    }
}

/// The serialized form of a configuration: one JSON object with the six
/// fields in a fixed order.
pub open spec fn config_text(c: AnalysisConfig) -> Seq<char> {
    "{ \"reachable_only\": "@ + bool_text(c.reachable_only) + ", \"full_docs\": "@ + bool_text(
        c.full_docs,
    ) + ", \"pub_only\": "@ + bool_text(c.pub_only) + ", \"distro_crate\": "@ + bool_text(
        c.distro_crate,
    ) + ", \"signatures\": "@ + bool_text(c.signatures) + ", \"borrow_data\": "@ + bool_text(
        c.borrow_data,
    ) + " }"@
}

fn push_bool(text: &mut String, b: bool)
    ensures
        final(text)@ == old(text)@ + bool_text(b),
{
    if b {
        text.append("true");
    } else {
        text.append("false");
    }
}

impl AnalysisConfig {
    /// The reduced capture for dependency units: reachable items only,
    /// full documentation, public items only, no distribution crate, no
    /// signatures and no borrow data.
    pub fn reduced() -> (c: AnalysisConfig)
        ensures
            c == reduced_config(),
            c.reachable_only && c.full_docs && c.pub_only,
            !c.distro_crate && !c.signatures && !c.borrow_data,
    {
        AnalysisConfig {
            reachable_only: true,
            full_docs: true,
            pub_only: true,
            distro_crate: false,
            signatures: false,
            borrow_data: false,
        }
    }

    /// Serializes the configuration for the environment of a child process.
    pub fn to_json(&self) -> (text: String)
        ensures
            text@ == config_text(*self),
    {
        let mut text: String = "{ \"reachable_only\": ".to_owned();
        push_bool(&mut text, self.reachable_only);
        text.append(", \"full_docs\": ");
        push_bool(&mut text, self.full_docs);
        text.append(", \"pub_only\": ");
        push_bool(&mut text, self.pub_only);
        text.append(", \"distro_crate\": ");
        push_bool(&mut text, self.distro_crate);
        text.append(", \"signatures\": ");
        push_bool(&mut text, self.signatures);
        text.append(", \"borrow_data\": ");
        push_bool(&mut text, self.borrow_data);
        text.append(" }");
        text
    }
}

} // verus!
