//! Structured build failures.

use vstd::prelude::*;
use crate::stage::StageKind;

verus! {

/// Why a build returned no program.
///
/// A `Compile` failure is attributed to the single stage whose source was
/// rejected; a `Link` failure is attributable only to the combination of
/// stages, so it names none.  `InvalidInput` reports a unit list that is
/// missing a required stage kind and is raised before any driver work.
#[derive(Debug)]
pub enum BuildError {
    Compile { stage: StageKind, message: String },
    Link { message: String },
    InvalidInput,
}

impl BuildError {
    /// The stage a failure is attributed to: the failing stage of a compile
    /// error, and none for a link error, whose cause is the combination.
    pub open spec fn spec_stage(&self) -> Option<StageKind> {
        match self {
            BuildError::Compile { stage, .. } => Some(*stage),
            BuildError::Link { .. } => None,
            BuildError::InvalidInput => None,
        }
    }

    /// The stage a failure is attributed to, if any.
    pub fn stage(&self) -> (r: Option<StageKind>)
        ensures
            r == self.spec_stage(),
    {
        match self {
            BuildError::Compile { stage, .. } => Some(*stage),
            BuildError::Link { .. } => None,
            BuildError::InvalidInput => None,
        }
    }

    /// The driver log carried by the failure, verbatim; empty for a
    /// rejected unit list, which never reaches the driver.
    pub fn message(&self) -> (r: &str)
        ensures
            self matches BuildError::Compile { message, .. } ==> r@ == message@,
            self matches BuildError::Link { message } ==> r@ == message@,
            self is InvalidInput ==> r@ == Seq::<char>::empty(),
    {
        proof {
            reveal_strlit("");
        }
        match self {
            BuildError::Compile { message, .. } => message.as_str(),
            BuildError::Link { message } => message.as_str(),
            BuildError::InvalidInput => "",
        }
    }
}

} // verus!
