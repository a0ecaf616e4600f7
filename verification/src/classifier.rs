//! Deciding whether a build unit is the primary unit or a dependency.

use vstd::prelude::*;

verus! {

/// Where the source of a build unit comes from.
#[derive(Clone, Copy, Debug, PartialEq, Eq, Structural)]
pub enum SourceOrigin {
    /// A directory of the local workspace.
    LocalPath,
    /// A versioned package of a registry.
    Registry,
    /// A revision of a git repository.
    Git,
    /// Any other external source.
    Other,
}

/// What a build unit compiles to.
#[derive(Clone, Copy, Debug, PartialEq, Eq, Structural)]
pub enum TargetKind {
    Lib,
    Bin,
    Test,
    Bench,
    Example,
    BuildScript,
}

/// One compilation target of the build graph, as the orchestrator emits it.
#[derive(Clone, Debug)]
pub struct BuildUnit {
    /// The identity of the unit within the build.
    pub id: u64,
    /// Where its source comes from.
    pub origin: SourceOrigin,
    /// The kind of its target.
    pub target_kind: TargetKind,
    /// The name of its target.
    pub target_name: String,
}

/// The two ways a build unit is treated.
#[derive(Clone, Copy, Debug, PartialEq, Eq, Structural)]
pub enum UnitKind {
    /// The unit whose analysis is captured in process.
    Primary,
    /// A unit that a child process builds with reduced capture.
    Dependency,
}

/// The classification rule: primary if and only if the source is a local
/// path. Nothing else of the unit is consulted.
pub open spec fn kind_of(origin: SourceOrigin) -> UnitKind {
    if origin == SourceOrigin::LocalPath {
        UnitKind::Primary
    } else {
        UnitKind::Dependency
    }
}

/// The kinds of the units of a session, in order.
pub open spec fn kinds_of(units: Seq<BuildUnit>) -> Seq<UnitKind> {
    Seq::new(units.len(), |i: int| kind_of(units[i].origin))
}

/// How many of `kinds` are primary.
pub open spec fn primary_count(kinds: Seq<UnitKind>) -> nat
    decreases kinds.len(),
{
    if kinds.len() == 0 {
        0
    } else {
        primary_count(kinds.drop_last()) + if kinds.last() == UnitKind::Primary {
            1nat
        } else {
            0nat
        }
    }
}

/// How many units of `units` have a local-path source.
pub open spec fn local_count(units: Seq<BuildUnit>) -> nat
    decreases units.len(),
{
    if units.len() == 0 {
        0
    } else {
        local_count(units.drop_last()) + if units.last().origin == SourceOrigin::LocalPath {
            1nat
        } else {
            0nat
        }
    }
}

/// Whether the unit is sourced from a local path.
pub fn is_primary_package(unit: &BuildUnit) -> (primary: bool)
    ensures
        primary == (unit.origin == SourceOrigin::LocalPath),
        primary == (kind_of(unit.origin) == UnitKind::Primary),
{
    match unit.origin {
        SourceOrigin::LocalPath => true,
        _ => false,
    }
}

/// Classifies one build unit by its source origin alone.
pub fn classify(unit: &BuildUnit) -> (kind: UnitKind)
    ensures
        kind == kind_of(unit.origin),
{
    if is_primary_package(unit) {
        UnitKind::Primary
    } else {
        UnitKind::Dependency
    }
}

/// Classifies every unit of a build session, in order. As many units come
/// out primary as have a local-path source.
pub fn classify_all(units: &[BuildUnit]) -> (kinds: Vec<UnitKind>)
    ensures
        kinds@ == kinds_of(units@),
        primary_count(kinds@) == local_count(units@),
{
    let mut kinds: Vec<UnitKind> = Vec::new();
    let mut i: usize = 0;
    while i < units.len()
        invariant
            i <= units.len(),
            kinds@.len() == i,
            forall|j: int| 0 <= j < i ==> #[trigger] kinds@[j] == kind_of(units@[j].origin),
        decreases units.len() - i,
    {
        kinds.push(classify(&units[i]));
        i += 1;
    }
    proof {
        assert(kinds@ =~= kinds_of(units@));
        lemma_primary_count(units@);
    }
    kinds
}

/// A session has as many primary units as it has units with a local-path
/// source: exactly one where exactly one unit is local, none where none is,
/// and none in an empty build. Neither names nor the order of the units
/// matter.
pub proof fn lemma_primary_count(units: Seq<BuildUnit>)
    ensures
        primary_count(kinds_of(units)) == local_count(units),
        local_count(units) == 1 ==> primary_count(kinds_of(units)) == 1,
        local_count(units) == 0 ==> primary_count(kinds_of(units)) == 0,
        units.len() == 0 ==> primary_count(kinds_of(units)) == 0,
    decreases units.len(),
{
    if units.len() > 0 {
        lemma_primary_count(units.drop_last());
        assert(kinds_of(units).drop_last() =~= kinds_of(units.drop_last()));
    }
}

/// Where the primary units stand: with no local unit no position is
/// primary, and with one local unit any two primary positions are the same.
pub proof fn lemma_primary_positions(units: Seq<BuildUnit>, i: int, j: int)
    requires
        0 <= i < units.len(),
        0 <= j < units.len(),
    ensures
        local_count(units) == 0 ==> kind_of(units[i].origin) == UnitKind::Dependency,
        local_count(units) == 1 && kind_of(units[i].origin) == UnitKind::Primary && kind_of(
            units[j].origin,
        ) == UnitKind::Primary ==> i == j,
    decreases units.len(),
{
    let rest = units.drop_last();
    let last = units.len() - 1;
    if i < last {
        lemma_primary_positions(rest, i, if j < last { j } else { i });
    }
    if j < last {
        lemma_primary_positions(rest, j, if i < last { i } else { j });
    }
}

} // verus!
