//! The compile-then-link pipeline.
//!
//! `ProgramBuilder` walks the supplied source units in order.  The caller
//! performs one driver compilation per step and reports the reply; the
//! builder decides whether to go on, and on any failure says exactly which
//! stage names must be deleted so that no driver name leaks.  `build` runs
//! the whole pipeline over pre-recorded replies and is the reference form
//! of the loop a driver-facing caller performs.

use vstd::prelude::*;
use crate::driver::{
    CompileReply, LinkReply, Verdict, build_verdict, compiles_attempted, first_failure,
    handles_of, lemma_first_failure, lemma_first_failure_at, lemma_no_failure, oks_of,
};
use crate::error::BuildError;
use crate::program::Program;
use crate::stage::{SourceUnit, StageKind, kinds_of, units_contain, units_valid};

verus! {

/// The pipeline state: the units to compile, and the driver names of the
/// stages compiled so far.
pub struct ProgramBuilder {
    units: Vec<SourceUnit>,
    stages: Vec<u32>,
}

/// What follows one stage compilation: either the pipeline goes on, or it
/// is over with an error and a list of stage names to delete.
pub enum BuildStep {
    Continue(ProgramBuilder),
    Failed { error: BuildError, delete: Vec<u32> },
}

/// What follows the link step: the finished program, or an error; either
/// way, a list of driver names to delete.
pub enum LinkStep {
    Done { program: Program, delete: Vec<u32> },
    Failed { error: BuildError, delete: Vec<u32> },
}

impl ProgramBuilder {
    /// The source units, in the order supplied.
    pub closed spec fn units_seq(&self) -> Seq<SourceUnit> {
        self.units@
    }

    /// The driver names of the stages compiled so far, in order.
    pub closed spec fn stage_seq(&self) -> Seq<u32> {
        self.stages@
    }

    /// Internal soundness: no more stages than units, and the unit list
    /// passed validation.
    pub open spec fn wf(&self) -> bool {
        self.stage_seq().len() <= self.units_seq().len()
            && units_valid(kinds_of(self.units_seq()))
    }

    /// Whether some unit still waits to be compiled.
    pub open spec fn compiling(&self) -> bool {
        self.stage_seq().len() < self.units_seq().len()
    }

    /// Accept a unit list for building.  A list without a vertex stage or
    /// without a fragment stage is rejected here, before any driver call.
    pub fn new(units: Vec<SourceUnit>) -> (r: Result<ProgramBuilder, BuildError>)
        ensures
            units_valid(kinds_of(units@)) ==> (r matches Ok(b)
                && b.units_seq() == units@
                && b.stage_seq() == Seq::<u32>::empty()
                && b.wf()),
            !units_valid(kinds_of(units@)) ==> (r matches Err(e) && e is InvalidInput),
    {
        if units_contain(&units, StageKind::Vertex) && units_contain(&units, StageKind::Fragment)
        {
            Ok(ProgramBuilder { units, stages: Vec::new() })
        } else {
            Err(BuildError::InvalidInput)
        }
    }

    /// The stage slot of the next unit to compile.
    pub fn next_kind(&self) -> (k: StageKind)
        requires
            self.compiling(),
        ensures
            k == self.units_seq()[self.stage_seq().len() as int].kind,
    {
        self.units[self.stages.len()].kind
    }

    /// The source text of the next unit to compile.
    pub fn next_source(&self) -> (s: &String)
        requires
            self.compiling(),
        ensures
            s@ == self.units_seq()[self.stage_seq().len() as int].text@,
    {
        &self.units[self.stages.len()].text
    }

    /// Whether every unit has compiled, so the link step is next.
    pub fn ready_to_link(&self) -> (r: bool)
        ensures
            r == (self.stage_seq().len() == self.units_seq().len()),
    {
        self.stages.len() == self.units.len()
    }

    /// The driver names to attach to the program object before linking.
    pub fn stage_handles(&self) -> (h: &Vec<u32>)
        ensures
            h@ == self.stage_seq(),
    {
        &self.stages
    }

    /// Record the driver's reply to compiling the next unit.  On success
    /// the pipeline keeps the new stage name and goes on to the following
    /// unit.  On failure it stops at once — later units are never
    /// compiled — with the failure attributed to this unit's stage, the
    /// driver log preserved verbatim, and every stage name created so far,
    /// the rejected one included, handed back for deletion.
    pub fn on_compiled(self, reply: &CompileReply) -> (r: BuildStep)
        requires
            self.wf(),
            self.compiling(),
        ensures
            reply.ok ==> (r matches BuildStep::Continue(b)
                && b.units_seq() == self.units_seq()
                && b.stage_seq() == self.stage_seq().push(reply.handle)
                && b.wf()),
            !reply.ok ==> (r matches BuildStep::Failed { error, delete }
                && (error matches BuildError::Compile { stage, message }
                    && stage == self.units_seq()[self.stage_seq().len() as int].kind
                    && message@ == reply.log@)
                && delete@ == self.stage_seq().push(reply.handle)),
    {
        if reply.ok {
            let ProgramBuilder { units, mut stages } = self;
            stages.push(reply.handle);
            BuildStep::Continue(ProgramBuilder { units, stages })
        } else {
            let kind = self.units[self.stages.len()].kind;
            let ProgramBuilder { units: _, mut stages } = self;
            stages.push(reply.handle);
            BuildStep::Failed {
                error: BuildError::Compile { stage: kind, message: reply.log.clone() },
                delete: stages,
            }
        }
    }

    /// Record the driver's reply to linking the attached stages.  Whatever
    /// the driver answered, the compiled stages are no longer needed and
    /// every stage name is handed back for deletion; on failure the fresh
    /// program object is handed back too, so that nothing of a failed
    /// build survives, and on success exactly the linked program does.
    pub fn on_linked(self, program_handle: u32, reply: &LinkReply) -> (r: LinkStep)
        requires
            self.wf(),
            self.stage_seq().len() == self.units_seq().len(),
        ensures
            reply.ok ==> (r matches LinkStep::Done { program, delete }
                && program.id() == program_handle
                && program.alive()
                && delete@ == self.stage_seq()),
            !reply.ok ==> (r matches LinkStep::Failed { error, delete }
                && (error matches BuildError::Link { message } && message@ == reply.log@)
                && delete@ == self.stage_seq().push(program_handle)),
    {
        let ProgramBuilder { units: _, mut stages } = self;
        if reply.ok {
            LinkStep::Done { program: Program::from_linked(program_handle), delete: stages }
        } else {
            stages.push(program_handle);
            LinkStep::Failed {
                error: BuildError::Link { message: reply.log.clone() },
                delete: stages,
            }
        }
    }
}

/// The verdict a build result embodies: which terminal state the pipeline
/// reached, with a compile failure attributed to its stage.
pub open spec fn verdict_of(r: Result<Program, BuildError>) -> Verdict {
    match r {
        Ok(_) => Verdict::Linked,
        Err(BuildError::Compile { stage, .. }) => Verdict::CompileFailed(stage),
        Err(BuildError::Link { .. }) => Verdict::LinkFailed,
        Err(BuildError::InvalidInput) => Verdict::Rejected,
    }
}

/// Everything one whole pipeline run did: its result, every driver name it
/// was given (`created`, in order), every driver name it handed back for
/// deletion (`deleted`), and how many compilations it requested.
pub struct BuildReport {
    pub result: Result<Program, BuildError>,
    pub created: Vec<u32>,
    pub deleted: Vec<u32>,
    pub compiles: usize,
}

/// Run the whole pipeline over pre-recorded driver replies: one compile
/// reply per unit (of which only the first `compiles` are consulted) and
/// one link reply, with `program_handle` the name the driver would give
/// the program object.
///
/// The result's verdict is a pure function of the stage kinds, the compile
/// statuses and the link status; driver logs are preserved verbatim in the
/// error; and every driver name created during the run is handed back in
/// `deleted` — except, on success alone, the returned program's.
#[verifier::loop_isolation(false)]
pub fn build(
    units: Vec<SourceUnit>,
    replies: &Vec<CompileReply>,
    program_handle: u32,
    link_reply: &LinkReply,
) -> (r: BuildReport)
    requires
        replies@.len() == units@.len(),
    ensures
        verdict_of(r.result) == build_verdict(kinds_of(units@), oks_of(replies@), link_reply.ok),
        r.compiles == compiles_attempted(kinds_of(units@), oks_of(replies@)),
        (units_valid(kinds_of(units@)) && first_failure(oks_of(replies@)) < units@.len())
            ==> (r.result matches Err(e)
                && e matches BuildError::Compile { message, .. }
                && message@ == replies@[first_failure(oks_of(replies@))].log@),
        (units_valid(kinds_of(units@)) && first_failure(oks_of(replies@)) >= units@.len()
            && !link_reply.ok)
            ==> (r.result matches Err(e)
                && e matches BuildError::Link { message }
                && message@ == link_reply.log@),
        r.result matches Ok(p) ==> p.id() == program_handle && p.alive(),
        !units_valid(kinds_of(units@)) ==> r.created@ == Seq::<u32>::empty(),
        (units_valid(kinds_of(units@)) && first_failure(oks_of(replies@)) < units@.len())
            ==> r.created@ == handles_of(
                replies@.subrange(0, first_failure(oks_of(replies@)) + 1),
            ),
        (units_valid(kinds_of(units@)) && first_failure(oks_of(replies@)) >= units@.len())
            ==> r.created@ == handles_of(replies@).push(program_handle),
        r.result is Err ==> r.deleted@ == r.created@,
        r.result matches Ok(p) ==> r.created@ == r.deleted@.push(p.id()),
{
    let ghost uview = units@;
    proof {
        lemma_first_failure(oks_of(replies@));
    }
    let n = units.len();
    let mut created: Vec<u32> = Vec::new();
    let mut builder = match ProgramBuilder::new(units) {
        Ok(b) => b,
        Err(e) => {
            return BuildReport { result: Err(e), created, deleted: Vec::new(), compiles: 0 };
        },
    };
    let mut i: usize = 0;
    while i < n
        invariant
            n == uview.len(),
            replies@.len() == n,
            i <= n,
            units_valid(kinds_of(uview)),
            builder.wf(),
            builder.units_seq() == uview,
            builder.stage_seq() == handles_of(replies@.subrange(0, i as int)),
            created@ == handles_of(replies@.subrange(0, i as int)),
            forall|j: int| 0 <= j < i ==> oks_of(replies@)[j],
        decreases n - i,
    {
        let reply = &replies[i];
        created.push(reply.handle);
        proof {
            assert(replies@.subrange(0, i + 1) =~= replies@.subrange(0, i as int).push(
                replies@[i as int],
            ));
            assert(handles_of(replies@.subrange(0, i as int).push(replies@[i as int])) =~= handles_of(
                replies@.subrange(0, i as int),
            ).push(replies@[i as int].handle));
        }
        match builder.on_compiled(reply) {
            BuildStep::Continue(b) => {
                builder = b;
            },
            BuildStep::Failed { error, delete } => {
                proof {
                    lemma_first_failure_at(oks_of(replies@), i as int);
                }
                return BuildReport {
                    result: Err(error),
                    created,
                    deleted: delete,
                    compiles: i + 1,
                };
            },
        }
        i = i + 1;
    }
    proof {
        lemma_no_failure(oks_of(replies@));
        assert(replies@.subrange(0, n as int) =~= replies@);
    }
    created.push(program_handle);
    match builder.on_linked(program_handle, link_reply) {
        LinkStep::Done { program, delete } => {
            BuildReport { result: Ok(program), created, deleted: delete, compiles: n }
        },
        LinkStep::Failed { error, delete } => {
            BuildReport { result: Err(error), created, deleted: delete, compiles: n }
        },
    }
}

} // verus!
