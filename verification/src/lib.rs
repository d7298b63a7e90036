//! A verified shader-program construction pipeline.
//!
//! Shader source units are compiled one by one, linked into a single
//! program artifact, and every driver-reported failure is turned into a
//! structured error.  The decision logic — input validation, fail-fast
//! ordering, error attribution, and the pairing of every created driver
//! name with a deletion — lives here and is verified; the caller performs
//! the actual driver calls and feeds their outcomes back in.

pub mod builder;
pub mod driver;
pub mod error;
pub mod laws;
pub mod program;
pub mod stage;

pub use builder::BuildReport;
pub use builder::BuildStep;
pub use builder::LinkStep;
pub use builder::ProgramBuilder;
pub use builder::build;
pub use driver::CompileReply;
pub use driver::LinkReply;
pub use error::BuildError;
pub use program::Program;
pub use stage::SourceUnit;
pub use stage::StageKind;
