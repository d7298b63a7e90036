//! Laws of the pipeline, stated over the specification model that the
//! builder's contracts use.  Resource cleanliness — every driver name a
//! run creates is handed back for deletion, except the returned program's
//! on success — is stated directly on `build`'s `created` and `deleted`
//! clauses.

use vstd::prelude::*;
use crate::driver::{
    CompileReply, Verdict, build_verdict, compiles_attempted, lemma_first_failure_at,
    lemma_no_failure, oks_of,
};
use crate::stage::{StageKind, units_valid};

verus! {

/// A valid unit list whose every compilation succeeds, and whose link
/// succeeds, builds a program; every unit is compiled.
pub proof fn lemma_all_valid_builds(kinds: Seq<StageKind>, oks: Seq<bool>, link_ok: bool)
    requires
        oks.len() == kinds.len(),
        units_valid(kinds),
        forall|j: int| 0 <= j < oks.len() ==> oks[j],
        link_ok,
    ensures
        build_verdict(kinds, oks, link_ok) is Linked,
        compiles_attempted(kinds, oks) == kinds.len(),
{
    lemma_no_failure(oks);
}

/// When the first unit fills the vertex slot and its compilation fails,
/// the build fails attributed to the vertex stage, exactly one compilation
/// is ever requested, and in particular no fragment unit is compiled.
pub proof fn lemma_vertex_failure_is_fail_fast(
    kinds: Seq<StageKind>,
    oks: Seq<bool>,
    link_ok: bool,
)
    requires
        oks.len() == kinds.len(),
        units_valid(kinds),
        kinds.len() > 0,
        kinds[0] == StageKind::Vertex,
        !oks[0],
    ensures
        build_verdict(kinds, oks, link_ok) == Verdict::CompileFailed(StageKind::Vertex),
        compiles_attempted(kinds, oks) == 1,
        forall|j: int|
            0 <= j < kinds.len() && kinds[j] == StageKind::Fragment ==> j >= compiles_attempted(
                kinds,
                oks,
            ),
{
    lemma_first_failure_at(oks, 0);
}

/// When every unit of a valid list compiles but the combination fails to
/// link, the build fails with the failure attributed to no single stage.
pub proof fn lemma_link_failure(kinds: Seq<StageKind>, oks: Seq<bool>)
    requires
        oks.len() == kinds.len(),
        units_valid(kinds),
        forall|j: int| 0 <= j < oks.len() ==> oks[j],
    ensures
        build_verdict(kinds, oks, false) is LinkFailed,
{
    lemma_no_failure(oks);
}

/// Rebuilding is idempotent in everything but the driver names: two runs
/// over the same stage kinds whose replies carry the same compile statuses
/// and the same link status — as a deterministic driver gives for
/// identical source — end in the same verdict after the same number of
/// compilations, whatever handles and logs the driver handed out.
pub proof fn lemma_rebuild_agrees(
    kinds: Seq<StageKind>,
    replies1: Seq<CompileReply>,
    replies2: Seq<CompileReply>,
    link1: bool,
    link2: bool,
)
    requires
        oks_of(replies1) == oks_of(replies2),
        link1 == link2,
    ensures
        build_verdict(kinds, oks_of(replies1), link1) == build_verdict(
            kinds,
            oks_of(replies2),
            link2,
        ),
        compiles_attempted(kinds, oks_of(replies1)) == compiles_attempted(
            kinds,
            oks_of(replies2),
        ),
{
}

} // verus!
