//! Driver replies, and the specification-level model of a whole build.
//!
//! The builder never talks to the GPU driver itself: the caller performs
//! each requested driver call and reports what came back as a reply value.
//! Over sequences of such replies, this module defines what the outcome of
//! a build is — a pure function of the supplied stage kinds, the per-unit
//! compile statuses, and the link status, and of nothing else.

use vstd::prelude::*;
use crate::stage::{StageKind, units_valid};

verus! {

/// What the driver reported for one stage-compilation request: the freshly
/// created stage name, whether compilation succeeded, and the diagnostic
/// log (consulted only on failure).
pub struct CompileReply {
    pub ok: bool,
    pub handle: u32,
    pub log: String,
}

/// What the driver reported for the link request.
pub struct LinkReply {
    pub ok: bool,
    pub log: String,
}

/// The compile statuses of a sequence of replies, in order.
pub open spec fn oks_of(replies: Seq<CompileReply>) -> Seq<bool> {
    replies.map_values(|r: CompileReply| r.ok)
}

/// The stage names of a sequence of replies, in order.
pub open spec fn handles_of(replies: Seq<CompileReply>) -> Seq<u32> {
    replies.map_values(|r: CompileReply| r.handle)
}

/// The index of the first failed compilation, or the length of the
/// sequence when every compilation succeeded.
pub open spec fn first_failure(oks: Seq<bool>) -> int
    decreases oks.len(),
{
    if oks.len() == 0 {
        0
    } else if !oks[0] {
        0
    } else {
        1 + first_failure(oks.drop_first())
    }
}

/// How a build ends, as a function of the inputs alone.
pub enum Verdict {
    /// The unit list was missing a required stage kind; no driver call
    /// was made.
    Rejected,
    /// The named stage was the first whose compilation failed; later
    /// units were never compiled.
    CompileFailed(StageKind),
    /// Every unit compiled, and linking the combination failed.
    LinkFailed,
    /// Every unit compiled and the program linked.
    Linked,
}

/// The outcome of a build over the stage kinds supplied, the per-unit
/// compile statuses, and the link status.  Handle values and log text play
/// no part: rebuilding from identical source under a deterministic driver
/// ends in the same verdict.
pub open spec fn build_verdict(kinds: Seq<StageKind>, oks: Seq<bool>, link_ok: bool) -> Verdict
    recommends oks.len() == kinds.len(),
{
    if !units_valid(kinds) {
        Verdict::Rejected
    } else if first_failure(oks) < kinds.len() {
        Verdict::CompileFailed(kinds[first_failure(oks)])
    } else if !link_ok {
        Verdict::LinkFailed
    } else {
        Verdict::Linked
    }
}

/// How many units a build asks the driver to compile: none when the unit
/// list is rejected, every unit up to and including the first failure, and
/// all of them otherwise.
pub open spec fn compiles_attempted(kinds: Seq<StageKind>, oks: Seq<bool>) -> int
    recommends oks.len() == kinds.len(),
{
    if !units_valid(kinds) {
        0
    } else if first_failure(oks) < kinds.len() {
        first_failure(oks) + 1
    } else {
        kinds.len() as int
    }
}

/// Position and meaning of `first_failure`: it lies within the sequence
/// extended by one, every status before it is a success, and when it lies
/// within the sequence it points at a failure.
pub proof fn lemma_first_failure(oks: Seq<bool>)
    ensures
        0 <= first_failure(oks) <= oks.len(),
        forall|j: int| 0 <= j < first_failure(oks) ==> oks[j],
        first_failure(oks) < oks.len() ==> !oks[first_failure(oks)],
    decreases oks.len(),
{
    if oks.len() == 0 {
    } else if !oks[0] {
    } else {
        lemma_first_failure(oks.drop_first());
        assert forall|j: int| 0 <= j < first_failure(oks) implies oks[j] by {
            if j > 0 {
                assert(oks.drop_first()[j - 1] == oks[j]);
            }
        }
    }
}

/// A sequence whose first `i` statuses are successes and whose status at
/// `i` is a failure has its first failure exactly at `i`.
pub proof fn lemma_first_failure_at(oks: Seq<bool>, i: int)
    requires
        0 <= i < oks.len(),
        forall|j: int| 0 <= j < i ==> oks[j],
        !oks[i],
    ensures
        first_failure(oks) == i,
    decreases i,
{
    if i == 0 {
    } else {
        assert(oks[0]);
        assert(forall|j: int| 0 <= j < i - 1 ==> oks.drop_first()[j] == oks[j + 1]);
        assert(oks.drop_first()[i - 1] == oks[i]);
        lemma_first_failure_at(oks.drop_first(), i - 1);
    }
}

/// A sequence of successes alone has its first failure at the length.
pub proof fn lemma_no_failure(oks: Seq<bool>)
    requires
        forall|j: int| 0 <= j < oks.len() ==> oks[j],
    ensures
        first_failure(oks) == oks.len(),
    decreases oks.len(),
{
    if oks.len() > 0 {
        assert(forall|j: int| 0 <= j < oks.drop_first().len() ==> oks.drop_first()[j] == oks[j + 1]);
        lemma_no_failure(oks.drop_first());
    }
}

} // verus!
