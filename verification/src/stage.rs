//! Shader stages and the source units handed to the builder.

use vstd::prelude::*;

verus! {

/// Which compilation slot a source unit fills.
#[derive(Clone, Copy, Debug, PartialEq, Eq, Structural)]
pub enum StageKind {
    Vertex,
    Fragment,
}

/// One unit of shader source text, destined for a particular stage.
pub struct SourceUnit {
    pub kind: StageKind,
    pub text: String,
}

/// The stage kinds of a sequence of source units, in order.
pub open spec fn kinds_of(units: Seq<SourceUnit>) -> Seq<StageKind> {
    units.map_values(|u: SourceUnit| u.kind)
}

/// Whether some unit in the sequence fills the given stage slot.
pub open spec fn has_kind(kinds: Seq<StageKind>, k: StageKind) -> bool {
    exists|i: int| 0 <= i < kinds.len() && kinds[i] == k
}

/// A unit list is a viable pipeline exactly when it supplies at least one
/// vertex stage and at least one fragment stage.
pub open spec fn units_valid(kinds: Seq<StageKind>) -> bool {
    has_kind(kinds, StageKind::Vertex) && has_kind(kinds, StageKind::Fragment)
}

/// Decide whether some unit fills the given stage slot.
pub fn units_contain(units: &Vec<SourceUnit>, k: StageKind) -> (r: bool)
    ensures
        r == has_kind(kinds_of(units@), k),
{
    let mut i: usize = 0;
    while i < units.len()
        invariant
            i <= units@.len(),
            forall|j: int| 0 <= j < i ==> kinds_of(units@)[j] != k,
        decreases units@.len() - i,
    {
        if units[i].kind == k {
            assert(kinds_of(units@)[i as int] == k);
            return true;
        }
        i = i + 1;
    }
    false
}

} // verus!
