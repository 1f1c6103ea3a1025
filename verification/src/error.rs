//! What can go wrong in a run.

use vstd::prelude::*;

verus! {

/// The ways in which a run can fall short.
///
/// The first three end a run before the sandbox is started and are shown to
/// the user. The next three end a run without a result; they are recorded,
/// and the user sees that there is no result. The last never ends a run: it
/// is recorded beside the result.
#[derive(Debug, Clone, Copy, PartialEq, Eq, Structural)]
pub enum PipelineError {
    /// The grader source or the submission does not exist.
    PathNotFound,
    /// The submission lies outside the build context, and no reference to
    /// it could be placed there.
    ReferenceCreationFailed,
    /// A template is malformed.
    TemplateRenderError,
    /// The sandbox could not be started or waited for.
    SandboxLaunchFailed,
    /// The run left no artifact that could be read.
    ArtifactUnreadable,
    /// The artifact does not hold a result.
    ArtifactMalformed,
    /// The artifact was read but could not be removed.
    ArtifactCleanupFailed,
}

impl PipelineError {
    /// Whether the error ends a run before the sandbox is started.
    pub open spec fn aborts(self) -> bool {
        self == PipelineError::PathNotFound || self == PipelineError::ReferenceCreationFailed
            || self == PipelineError::TemplateRenderError
    }

    /// Whether the error ends a run without a result.
    pub open spec fn leaves_no_result(self) -> bool {
        self == PipelineError::SandboxLaunchFailed || self == PipelineError::ArtifactUnreadable
            || self == PipelineError::ArtifactMalformed
    }

    /// Whether the error ends a run before the sandbox is started.
    pub fn is_abort(self) -> (r: bool)
        ensures
            r == self.aborts(),
    {
        match self {
            PipelineError::PathNotFound
            | PipelineError::ReferenceCreationFailed
            | PipelineError::TemplateRenderError => true,
            _ => false,
        }
    }
}

} // verus!
